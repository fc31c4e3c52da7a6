//! The books of one thread's contexts.

use vstd::prelude::*;
use crate::context::Context;
use crate::context::NULL_REFERENCE;
use crate::data::ContextData;
use crate::data::Record;
use crate::value::Function;

verus! {

/// What the library knows of the engine on one thread: which context is
/// current, and which contexts are alive, each with its record.
pub struct Runtime {
    current: usize,
    contexts: Vec<Context>,
    records: Vec<ContextData>,
}

impl Runtime {
    /// Every context has one record, and no context is listed twice.
    pub closed spec fn wf(&self) -> bool {
        &&& self.contexts@.len() == self.records@.len()
        &&& self.contexts@.no_duplicates()
    }

    /// The current context, if there is one.
    pub closed spec fn current(&self) -> Option<Context> {
        Context::in_slot(self.current)
    }

    /// The contexts that are alive, each with what its record holds.
    pub closed spec fn records(&self) -> Map<Context, Record> {
        Map::new(
            |c: Context| self.contexts@.contains(c),
            |c: Context| self.records@[self.contexts@.index_of(c)]@,
        )
    }

    /// Whether a context is alive here.
    pub open spec fn hosts(&self, context: Context) -> bool {
        self.records().dom().contains(context)
    }

    /// What the record of a context holds.
    pub open spec fn record(&self, context: Context) -> Record {
        self.records()[context]
    }

    /// Whether two runtimes agree on the current context and on every
    /// record.
    pub open spec fn agrees_with(&self, other: Runtime) -> bool {
        &&& self.current() == other.current()
        &&& self.records() == other.records()
    }

    /// What holds of the runtime before and after a task is queued for a
    /// context: the task is the last of that context's queue, and nothing
    /// else has changed.
    pub open spec fn queued(before: Runtime, after: Runtime, context: Context, task: Function) -> bool {
        &&& after.current() == before.current()
        &&& after.records() == before.records().insert(
            context,
            Record { tasks: before.record(context).tasks.push(task), ..before.record(context) },
        )
    }

    /// What holds of the runtime before and after the next task of a
    /// context is taken: the task queued last comes out, and nothing else
    /// has changed. With no task waiting nothing comes out and nothing
    /// changes.
    pub open spec fn taken(before: Runtime, after: Runtime, context: Context, task: Option<Function>) -> bool {
        let tasks = before.record(context).tasks;
        &&& after.current() == before.current()
        &&& if tasks.len() == 0 {
            &&& task is None
            &&& after.records() == before.records()
        } else {
            &&& task == Some(tasks.last())
            &&& after.records() == before.records().insert(
                context,
                Record { tasks: tasks.drop_last(), ..before.record(context) },
            )
        }
    }

    proof fn lemma_index(&self, i: int)
        requires
            self.wf(),
            0 <= i < self.contexts@.len(),
        ensures
            self.contexts@.contains(self.contexts@[i]),
            self.contexts@.index_of(self.contexts@[i]) == i,
            self.hosts(self.contexts@[i]),
            self.record(self.contexts@[i]) == self.records@[i]@,
    {
        self.contexts@.index_of_first_ensures(self.contexts@[i]);
    }

    /// A runtime with no context alive and none current.
    pub fn new() -> (runtime: Runtime)
        ensures
            runtime.wf(),
            runtime.current() is None,
            runtime.records() == Map::<Context, Record>::empty(),
    {
        let runtime = Runtime { current: NULL_REFERENCE, contexts: Vec::new(), records: Vec::new() };
        assert(runtime.records() =~= Map::<Context, Record>::empty());
        runtime
    }

    fn find(&self, context: &Context) -> (found: Option<usize>)
        requires
            self.wf(),
        ensures
            match found {
                Some(i) => i < self.contexts@.len() && self.contexts@[i as int] == *context,
                None => !self.hosts(*context),
            },
    {
        let mut i: usize = 0;
        while i < self.contexts.len()
            invariant
                i <= self.contexts@.len(),
                forall|j: int| 0 <= j < i ==> self.contexts@[j] != *context,
            decreases self.contexts@.len() - i,
        {
            if self.contexts[i].raw == context.raw {
                return Some(i);
            }
            i += 1;
        }
        None
    }

    /// Whether a context is alive here.
    pub fn is_hosted(&self, context: &Context) -> (hosted: bool)
        requires
            self.wf(),
        ensures
            hosted == self.hosts(*context),
    {
        match self.find(context) {
            Some(i) => {
                proof {
                    self.lemma_index(i as int);
                }
                true
            },
            None => false,
        }
    }

    /// The record of a context that is alive.
    pub fn data(&self, context: &Context) -> (data: &ContextData)
        requires
            self.wf(),
            self.hosts(*context),
        ensures
            data@ == self.record(*context),
    {
        match self.find(context) {
            Some(i) => {
                proof {
                    self.lemma_index(i as int);
                }
                &self.records[i]
            },
            None => {
                proof {
                    assert(false);
                }
                &self.records[0]
            },
        }
    }

    /// The record of a context that is alive, to be changed in place.
    pub fn data_mut(&mut self, context: &Context) -> (data: &mut ContextData)
        requires
            old(self).wf(),
            old(self).hosts(*context),
        ensures
            data@ == old(self).record(*context),
            final(self).wf(),
            final(self).current() == old(self).current(),
            final(self).records() == old(self).records().insert(*context, final(data)@),
    {
        let found = self.find(context);
        let i: usize = match found {
            Some(i) => i,
            None => 0,
        };
        proof {
            self.lemma_index(i as int);
        }
        let data = &mut self.records[i];
        data
    }

    /// Gives a context a record: the context is alive from now on. A record
    /// that it had before is dropped.
    pub fn attach(&mut self, context: Context, data: ContextData)
        requires
            old(self).wf(),
        ensures
            final(self).wf(),
            final(self).current() == old(self).current(),
            final(self).records() == old(self).records().insert(context, data@),
    {
        match self.find(&context) {
            Some(i) => {
                proof {
                    self.lemma_index(i as int);
                }
                self.records[i] = data;
            },
            None => {
                self.contexts.push(context);
                self.records.push(data);
                proof {
                    assert(final(self).contexts@.no_duplicates());
                    self.lemma_index(self.contexts@.len() - 1);
                    assert forall|c: Context| old(self).contexts@.contains(c) implies self.contexts@.contains(c)
                        && self.contexts@.index_of(c) == old(self).contexts@.index_of(c) by {
                        old(self).contexts@.index_of_first_ensures(c);
                        let k = old(self).contexts@.index_of(c);
                        assert(self.contexts@[k] == c);
                        self.lemma_index(k);
                    }
                    assert forall|c: Context| self.contexts@.contains(c) implies c == context
                        || old(self).contexts@.contains(c) by {
                        self.contexts@.index_of_first_ensures(c);
                        let k = self.contexts@.index_of(c);
                        if k < old(self).contexts@.len() {
                            assert(old(self).contexts@[k] == c);
                        }
                    }
                    assert(self.records() =~= old(self).records().insert(context, data@));
                }
            },
        }
    }

    /// Takes the record of a context away: the context is no longer alive.
    /// Returns the record, or nothing where the context was not alive.
    pub fn detach(&mut self, context: &Context) -> (data: Option<ContextData>)
        requires
            old(self).wf(),
        ensures
            final(self).wf(),
            final(self).current() == old(self).current(),
            final(self).records() == old(self).records().remove(*context),
            match data {
                Some(d) => old(self).hosts(*context) && d@ == old(self).record(*context),
                None => !old(self).hosts(*context),
            },
    {
        match self.find(context) {
            Some(i) => {
                proof {
                    self.lemma_index(i as int);
                }
                let _ = self.contexts.remove(i);
                let data = self.records.remove(i);
                proof {
                    let before = old(self).contexts@;
                    let after = self.contexts@;
                    assert forall|a: int, b: int| 0 <= a < b < after.len() implies after[a] != after[b] by {
                        let a0 = if a < i { a } else { a + 1 };
                        let b0 = if b < i { b } else { b + 1 };
                        assert(after[a] == before[a0]);
                        assert(after[b] == before[b0]);
                    }
                    assert(self.wf());
                    assert forall|c: Context| after.contains(c) implies before.contains(c) && c != *context
                        && self.records@[after.index_of(c)]@ == old(self).records@[before.index_of(c)]@ by {
                        after.index_of_first_ensures(c);
                        let k = after.index_of(c);
                        let k0 = if k < i { k } else { k + 1 };
                        assert(before[k0] == c);
                        old(self).lemma_index(k0);
                    }
                    assert forall|c: Context| before.contains(c) && c != *context implies after.contains(
                        c,
                    ) by {
                        before.index_of_first_ensures(c);
                        let k0 = before.index_of(c);
                        let k = if k0 < i { k0 } else { k0 - 1 };
                        assert(after[k] == c);
                    }
                    assert(self.records() =~= old(self).records().remove(*context));
                }
                Some(data)
            },
            None => {
                proof {
                    assert(self.records() =~= old(self).records().remove(*context));
                }
                None
            },
        }
    }

    /// The current context, if there is one.
    pub fn current_context(&self) -> (current: Option<Context>)
        ensures
            current == self.current(),
    {
        if self.current == NULL_REFERENCE {
            None
        } else {
            Some(Context::from_raw(self.current))
        }
    }

    /// Records that the engine's slot now holds a handle.
    pub fn set_current(&mut self, reference: usize)
        ensures
            final(self).current() == Context::in_slot(reference),
            final(self).records() == old(self).records(),
            old(self).wf() ==> final(self).wf(),
    {
        self.current = reference;
    }

    /// No current context is ever the null handle.
    pub proof fn lemma_current_is_not_null(&self)
        ensures
            self.current() != Some(Context { raw: NULL_REFERENCE }),
            Context::in_slot(Context::slot_of(self.current())) == self.current(),
    {
    }
}

} // verus!
