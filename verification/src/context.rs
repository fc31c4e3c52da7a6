//! Contexts and the guards that keep one current.

use vstd::prelude::*;
use crate::data::user_data_len;
use crate::data::ContextData;
use crate::error::EngineError;
use crate::error::NO_ERROR;
use crate::runtime::Runtime;
use crate::value::Function;

verus! {

/// The handle that stands for "no context".
pub const NULL_REFERENCE: usize = 0;

/// A sandboxed execution context, known by the handle that the engine gave
/// it. Two contexts are the same context when their handles are equal.
#[derive(Clone, Copy, Debug, PartialEq, Eq, Structural)]
pub struct Context {
    pub raw: usize,
}

impl Context {
    /// Begins the creation of a context. The context exists once the
    /// creation has finished with it.
    pub fn new() -> (creation: Creation)
        ensures
            creation == Creation::Allocating,
    {
        Creation::Allocating
    }

    /// The context behind an engine handle.
    pub fn from_raw(reference: usize) -> (context: Context)
        ensures
            context == (Context { raw: reference }),
    {
        Context { raw: reference }
    }

    /// The engine handle of the context.
    pub fn as_raw(&self) -> (reference: usize)
        ensures
            reference == self.raw,
    {
        self.raw
    }

    /// The context that is current while the engine's slot holds a handle:
    /// none for the null handle.
    pub open spec fn in_slot(reference: usize) -> Option<Context> {
        if reference == NULL_REFERENCE {
            None
        } else {
            Some(Context { raw: reference })
        }
    }

    /// The handle that the engine's slot holds while a context, or none, is
    /// current.
    pub open spec fn slot_of(context: Option<Context>) -> usize {
        match context {
            Some(c) => c.raw,
            None => NULL_REFERENCE,
        }
    }

    /// The context that owns an engine value, from the engine's answer to
    /// the question: the handle counts only where the status is `NO_ERROR`.
    pub fn from_object(status: u32, reference: usize) -> (owner: Result<Context, EngineError>)
        ensures
            owner == (if status == NO_ERROR {
                Ok(Context { raw: reference })
            } else {
                Err(EngineError { code: status })
            }),
    {
        match EngineError::check(status) {
            Ok(()) => Ok(Context::from_raw(reference)),
            Err(e) => Err(e),
        }
    }

    /// Makes the context current, given the engine's status for that
    /// request. With `NO_ERROR` the context is current from now on; with
    /// any other status nothing changes.
    pub fn enter(&self, runtime: &mut Runtime, status: u32) -> (entered: Result<(), EngineError>)
        requires
            old(runtime).wf(),
        ensures
            final(runtime).wf(),
            entered == EngineError::checked(status),
            final(runtime).records() == old(runtime).records(),
            final(runtime).current() == (if status == NO_ERROR {
                Context::in_slot(self.raw)
            } else {
                old(runtime).current()
            }),
    {
        match EngineError::check(status) {
            Ok(()) => {
                runtime.set_current(self.raw);
                Ok(())
            },
            Err(e) => Err(e),
        }
    }

    /// The handle to hand to the engine to make `previous` current again:
    /// the null handle where no context was current.
    pub fn exit_reference(previous: Option<&Context>) -> (reference: usize)
        ensures
            reference == (match previous {
                Some(c) => c.raw,
                None => NULL_REFERENCE,
            }),
    {
        match previous {
            Some(context) => context.as_raw(),
            None => NULL_REFERENCE,
        }
    }

    /// Leaves the context for the one that was current before it, given the
    /// engine's status for that request. With `NO_ERROR` the engine's slot
    /// holds the handle of `previous`; with any other status nothing changes.
    pub fn exit(&self, runtime: &mut Runtime, previous: Option<&Context>, status: u32) -> (left: Result<
        (),
        EngineError,
    >)
        requires
            old(runtime).wf(),
        ensures
            final(runtime).wf(),
            left == EngineError::checked(status),
            final(runtime).records() == old(runtime).records(),
            final(runtime).current() == (if status == NO_ERROR {
                match previous {
                    Some(c) => Context::in_slot(c.raw),
                    None => None,
                }
            } else {
                old(runtime).current()
            }),
    {
        match EngineError::check(status) {
            Ok(()) => {
                runtime.set_current(Self::exit_reference(previous));
                Ok(())
            },
            Err(e) => Err(e),
        }
    }

    /// Makes the context current and returns the guard that will restore
    /// what was current before, given the engine's status for the request
    /// to make it current. With any status but `NO_ERROR` there is no guard
    /// and nothing changes.
    pub fn make_current(&self, runtime: &mut Runtime, status: u32) -> (guard: Result<
        ContextGuard,
        EngineError,
    >)
        requires
            old(runtime).wf(),
        ensures
            final(runtime).wf(),
            match guard {
                Ok(g) => status == NO_ERROR && g.made_by(*self, *old(runtime), *final(runtime)),
                Err(e) => status != NO_ERROR && e.code == status && final(runtime).agrees_with(
                    *old(runtime),
                ),
            },
    {
        let current = runtime.current_context();
        proof {
            runtime.lemma_current_is_not_null();
        }
        match self.enter(runtime, status) {
            Ok(()) => Ok(ContextGuard { previous: current, current: *self, drop: true }),
            Err(e) => Err(e),
        }
    }

    /// Gives the context its record, given the engine's status for the
    /// request to attach data to it. With `NO_ERROR` the context is alive
    /// and the record is `data`; with any other status `data` is dropped
    /// and nothing changes.
    pub fn set_data(&self, runtime: &mut Runtime, data: ContextData, status: u32) -> (set: Result<
        (),
        EngineError,
    >)
        requires
            old(runtime).wf(),
        ensures
            final(runtime).wf(),
            set == EngineError::checked(status),
            final(runtime).current() == old(runtime).current(),
            final(runtime).records() == (if status == NO_ERROR {
                old(runtime).records().insert(*self, data@)
            } else {
                old(runtime).records()
            }),
    {
        match EngineError::check(status) {
            Ok(()) => {
                runtime.attach(*self, data);
                Ok(())
            },
            Err(e) => Err(e),
        }
    }

    /// The record of the context, to be changed in place.
    pub fn get_data<'a>(&self, runtime: &'a mut Runtime) -> (data: &'a mut ContextData)
        requires
            old(runtime).wf(),
            old(runtime).hosts(*self),
        ensures
            data@ == old(runtime).record(*self),
            final(runtime).wf(),
            final(runtime).current() == old(runtime).current(),
            final(runtime).records() == old(runtime).records().insert(*self, final(data)@),
    {
        runtime.data_mut(self)
    }

    /// Stores a user value with the context. At most one value of each type
    /// is kept: the value of the same type that was stored before, if any,
    /// is returned.
    pub fn insert_user_data<T: 'static>(&self, runtime: &mut Runtime, value: T) -> (previous: Option<T>)
        requires
            old(runtime).wf(),
            old(runtime).hosts(*self),
        ensures
            final(runtime).wf(),
            final(runtime).current() == old(runtime).current(),
            final(runtime).records() == old(runtime).records().insert(
                *self,
                final(runtime).record(*self),
            ),
            final(runtime).record(*self).tasks == old(runtime).record(*self).tasks,
            previous is Some ==> user_data_len(final(runtime).record(*self).user_data)
                == user_data_len(old(runtime).record(*self).user_data) > 0,
            previous is None ==> user_data_len(final(runtime).record(*self).user_data)
                == user_data_len(old(runtime).record(*self).user_data) + 1,
    {
        let data = self.get_data(runtime);
        data.insert_user_data(value)
    }

    /// Takes the user value of a type away from the context and returns it.
    /// Where the context holds none, nothing is returned and nothing
    /// changes.
    pub fn remove_user_data<T: 'static>(&self, runtime: &mut Runtime) -> (value: Option<T>)
        requires
            old(runtime).wf(),
            old(runtime).hosts(*self),
        ensures
            final(runtime).wf(),
            final(runtime).current() == old(runtime).current(),
            final(runtime).records() == old(runtime).records().insert(
                *self,
                final(runtime).record(*self),
            ),
            final(runtime).record(*self).tasks == old(runtime).record(*self).tasks,
            value is Some ==> user_data_len(old(runtime).record(*self).user_data) == user_data_len(
                final(runtime).record(*self).user_data,
            ) + 1,
            value is None ==> final(runtime).records() == old(runtime).records(),
    {
        let data = self.get_data(runtime);
        let value = data.remove_user_data::<T>();
        proof {
            if value is None {
                assert(old(runtime).records().insert(*self, old(runtime).record(*self))
                    =~= old(runtime).records());
            }
        }
        value
    }

    /// The user value of a type that the context holds, if it holds one.
    pub fn get_user_data<'a, T: 'static>(&self, runtime: &'a Runtime) -> (value: Option<&'a T>)
        requires
            runtime.wf(),
            runtime.hosts(*self),
        ensures
            value is Some ==> user_data_len(runtime.record(*self).user_data) > 0,
    {
        runtime.data(self).get_user_data::<T>()
    }

    /// The user value of a type that the context holds, to be changed in
    /// place.
    pub fn get_user_data_mut<'a, T: 'static>(&self, runtime: &'a mut Runtime) -> (value: Option<
        &'a mut T,
    >)
        requires
            old(runtime).wf(),
            old(runtime).hosts(*self),
        ensures
            value is Some ==> user_data_len(old(runtime).record(*self).user_data) > 0,
            final(runtime).wf(),
            final(runtime).current() == old(runtime).current(),
            final(runtime).records() == old(runtime).records().insert(
                *self,
                final(runtime).record(*self),
            ),
            final(runtime).record(*self).tasks == old(runtime).record(*self).tasks,
            user_data_len(final(runtime).record(*self).user_data) == user_data_len(
                old(runtime).record(*self).user_data,
            ),
    {
        let data = self.get_data(runtime);
        data.get_user_data_mut::<T>()
    }

    /// Queues a task for the context: the engine has a deferred reaction
    /// ready to run.
    pub fn promise_handler(&self, runtime: &mut Runtime, task: Function)
        requires
            old(runtime).wf(),
            old(runtime).hosts(*self),
        ensures
            final(runtime).wf(),
            Runtime::queued(*old(runtime), *final(runtime), *self, task),
    {
        let data = self.get_data(runtime);
        data.push_task(task);
    }

    /// Drops the record of the context: the engine is about to destroy it.
    /// The context is no longer alive afterwards.
    pub fn collect(&self, runtime: &mut Runtime)
        requires
            old(runtime).wf(),
            old(runtime).hosts(*self),
        ensures
            final(runtime).wf(),
            final(runtime).current() == old(runtime).current(),
            final(runtime).records() == old(runtime).records().remove(*self),
    {
        let _ = runtime.detach(self);
    }

    /// The context that is current, behind a guard that restores nothing.
    pub fn get_current(runtime: &Runtime) -> (guard: Option<ContextGuard>)
        ensures
            match guard {
                Some(g) => g.observes(*runtime),
                None => runtime.current() is None,
            },
    {
        match runtime.current_context() {
            Some(context) => Some(ContextGuard { previous: None, current: context, drop: false }),
            None => None,
        }
    }
}

/// A context made current, and what to restore when it no longer is.
///
/// A guard from `make_current` owes the restoring: `release` makes the
/// previous context current again. A guard from `get_current` only looks.
#[must_use]
#[derive(Debug)]
pub struct ContextGuard {
    previous: Option<Context>,
    current: Context,
    drop: bool,
}

impl ContextGuard {
    #[verifier::type_invariant]
    spec fn previous_is_a_context(self) -> bool {
        self.previous != Some(Context { raw: NULL_REFERENCE })
    }

    /// The context that the guard stands for.
    pub closed spec fn guarded(&self) -> Context {
        self.current
    }

    /// The context that was current before, if any was.
    pub closed spec fn previous(&self) -> Option<Context> {
        self.previous
    }

    /// Whether releasing the guard restores the previous context.
    pub closed spec fn restores(&self) -> bool {
        self.drop
    }

    /// What holds of a guard that `make_current` returned for `context`,
    /// and of the runtime before and after that call.
    pub open spec fn made_by(&self, context: Context, before: Runtime, after: Runtime) -> bool {
        &&& self.guarded() == context
        &&& self.previous() == before.current()
        &&& self.restores()
        &&& after.current() == Context::in_slot(context.raw)
        &&& after.records() == before.records()
    }

    /// What holds of a guard that `get_current` returned, and of the runtime
    /// that it was asked of.
    pub open spec fn observes(&self, runtime: Runtime) -> bool {
        &&& runtime.current() == Some(self.guarded())
        &&& self.previous() is None
        &&& !self.restores()
    }

    /// What holds of the runtime before and after the release of the guard.
    pub open spec fn released(&self, before: Runtime, after: Runtime) -> bool {
        &&& after.records() == before.records()
        &&& after.current() == (if self.restores() {
            self.previous()
        } else {
            before.current()
        })
    }

    /// The guard's context.
    pub fn context(&self) -> (context: Context)
        ensures
            context == self.guarded(),
    {
        self.current
    }

    /// The context that was current before, if any was.
    pub fn previous_context(&self) -> (context: Option<Context>)
        ensures
            context == self.previous(),
    {
        self.previous
    }

    /// What the caller asks of the engine before the guard is released: to
    /// make the previous context current, or nothing where the guard only
    /// looks.
    pub fn release_action(&self) -> (action: Action)
        ensures
            action == (if self.restores() {
                Action::SetCurrentContext(Context::slot_of(self.previous()))
            } else {
                Action::Nothing
            }),
    {
        if self.drop {
            Action::SetCurrentContext(Context::exit_reference(self.previous.as_ref()))
        } else {
            Action::Nothing
        }
    }

    /// Ends the guard, given the engine's status for its `release_action`.
    /// A guard that restores makes the previous context current again, or
    /// none where none was: the engine must have accepted that. A guard that
    /// only looks changes nothing, and the status does not count.
    pub fn release(self, runtime: &mut Runtime, status: u32)
        requires
            old(runtime).wf(),
            self.restores() ==> status == NO_ERROR,
        ensures
            final(runtime).wf(),
            self.released(*old(runtime), *final(runtime)),
    {
        proof {
            use_type_invariant(&self);
        }
        if self.drop {
            let _ = self.current.exit(runtime, self.previous.as_ref(), status);
        }
    }

    /// Takes the next task to run off the queue of the guard's context: the
    /// one that was queued last. Returns nothing when no task waits. To run
    /// all tasks, the caller takes and runs one task after another until
    /// nothing is returned: tasks that a task queues while it runs are taken
    /// before the tasks that waited already.
    pub fn next_task(&self, runtime: &mut Runtime) -> (task: Option<Function>)
        requires
            old(runtime).wf(),
            old(runtime).hosts(self.guarded()),
        ensures
            final(runtime).wf(),
            Runtime::taken(*old(runtime), *final(runtime), self.guarded(), task),
    {
        let data = self.current.get_data(runtime);
        let task = data.pop_task();
        proof {
            if task is None {
                assert(old(runtime).records().insert(self.guarded(), old(runtime).record(self.guarded()))
                    =~= old(runtime).records());
            }
        }
        task
    }
}

/// A request to the engine. The caller performs it and hands the engine's
/// status, and for `CreateContext` the new handle, to the operation that
/// asked.
#[derive(Clone, Copy, Debug, PartialEq, Eq, Structural)]
pub enum Action {
    /// Create a context.
    CreateContext,
    /// Have the engine announce the destruction of the context.
    SetCollectCallback(Context),
    /// Attach data to the context.
    SetContextData(Context),
    /// Make the context with this handle current, or none for the null
    /// handle.
    SetCurrentContext(usize),
    /// Have the engine announce the deferred tasks of the context, which is
    /// current.
    SetPromiseCallback(Context),
    /// Nothing to ask.
    Nothing,
}

/// The creation of a context, one engine request at a time.
///
/// Each state but the last waits for the engine's answer to one request,
/// which `action` names and `advance` takes.
#[derive(Debug)]
pub enum Creation {
    /// The engine is to create the context.
    Allocating,
    /// The engine is to announce the destruction of the context.
    Watching { context: Context },
    /// The engine is to attach data to the context.
    Attaching { context: Context },
    /// The engine is to make the context current.
    Entering { context: Context },
    /// The engine is to announce the deferred tasks of the context.
    Subscribing { guard: ContextGuard },
    /// The engine is to make the previous context current again.
    Leaving { guard: ContextGuard, outcome: Result<(), EngineError> },
    /// The creation is over: with the context, or with the status of the
    /// request that the engine refused.
    Finished { result: Result<Context, EngineError> },
}

impl Creation {
    /// The request that the creation waits for.
    pub open spec fn request(&self) -> Action {
        match *self {
            Creation::Allocating => Action::CreateContext,
            Creation::Watching { context } => Action::SetCollectCallback(context),
            Creation::Attaching { context } => Action::SetContextData(context),
            Creation::Entering { context } => Action::SetCurrentContext(context.raw),
            Creation::Subscribing { guard } => Action::SetPromiseCallback(guard.guarded()),
            Creation::Leaving { guard, outcome } => Action::SetCurrentContext(
                Context::slot_of(guard.previous()),
            ),
            Creation::Finished { result } => Action::Nothing,
        }
    }

    /// What holds of one step of a creation: of the state and the runtime
    /// before it, the engine's status and handle, and the state and the
    /// runtime after it.
    pub open spec fn step(
        &self,
        before: Runtime,
        status: u32,
        reference: usize,
        next: Creation,
        after: Runtime,
    ) -> bool {
        let refused = Creation::Finished { result: Err(EngineError { code: status }) };
        match *self {
            Creation::Allocating => {
                &&& after.agrees_with(before)
                &&& next == (if status == NO_ERROR {
                    Creation::Watching { context: Context { raw: reference } }
                } else {
                    refused
                })
            },
            Creation::Watching { context } => {
                &&& after.agrees_with(before)
                &&& next == (if status == NO_ERROR {
                    Creation::Attaching { context }
                } else {
                    refused
                })
            },
            Creation::Attaching { context } => {
                &&& after.current() == before.current()
                &&& if status == NO_ERROR {
                    &&& next == Creation::Entering { context }
                    &&& after.records() == before.records().insert(context, after.record(context))
                    &&& after.record(context).tasks == Seq::<Function>::empty()
                    &&& user_data_len(after.record(context).user_data) == 0
                } else {
                    &&& next == refused
                    &&& after.records() == before.records()
                }
            },
            Creation::Entering { context } => {
                if status == NO_ERROR {
                    &&& next matches Creation::Subscribing { guard }
                    &&& guard.made_by(context, before, after)
                } else {
                    &&& next == refused
                    &&& after.agrees_with(before)
                }
            },
            Creation::Subscribing { guard } => {
                &&& after.agrees_with(before)
                &&& next == Creation::Leaving { guard, outcome: EngineError::checked(status) }
            },
            Creation::Leaving { guard, outcome } => {
                &&& guard.released(before, after)
                &&& next == Creation::Finished {
                    result: match outcome {
                        Ok(()) => Ok(guard.guarded()),
                        Err(e) => Err(e),
                    },
                }
            },
            Creation::Finished { result } => {
                &&& after.agrees_with(before)
                &&& next == *self
            },
        }
    }

    /// The request that the creation waits for.
    pub fn action(&self) -> (action: Action)
        ensures
            action == self.request(),
    {
        match self {
            Creation::Allocating => Action::CreateContext,
            Creation::Watching { context } => Action::SetCollectCallback(*context),
            Creation::Attaching { context } => Action::SetContextData(*context),
            Creation::Entering { context } => Action::SetCurrentContext(context.as_raw()),
            Creation::Subscribing { guard } => Action::SetPromiseCallback(guard.context()),
            Creation::Leaving { guard, outcome } => Action::SetCurrentContext(
                Context::exit_reference(guard.previous_context().as_ref()),
            ),
            Creation::Finished { result } => Action::Nothing,
        }
    }

    /// The result of the creation, once it is over.
    pub fn result(&self) -> (result: Option<Result<Context, EngineError>>)
        ensures
            result == (match *self {
                Creation::Finished { result } => Some(result),
                _ => None,
            }),
    {
        match self {
            Creation::Finished { result } => Some(*result),
            _ => None,
        }
    }

    /// Takes the engine's answer to the request that the creation waits
    /// for, and moves on: to the next request where the engine accepted,
    /// to the end where it refused. `reference` is the handle of the new
    /// context and counts for `CreateContext` only. The request to make the
    /// previous context current again is one that the engine must have
    /// accepted.
    pub fn advance(self, runtime: &mut Runtime, status: u32, reference: usize) -> (next: Creation)
        requires
            old(runtime).wf(),
            self is Leaving ==> status == NO_ERROR,
        ensures
            final(runtime).wf(),
            self.step(*old(runtime), status, reference, next, *final(runtime)),
    {
        match self {
            Creation::Allocating => match Context::from_object(status, reference) {
                Ok(context) => Creation::Watching { context },
                Err(e) => Creation::Finished { result: Err(e) },
            },
            Creation::Watching { context } => match EngineError::check(status) {
                Ok(()) => Creation::Attaching { context },
                Err(e) => Creation::Finished { result: Err(e) },
            },
            Creation::Attaching { context } => match context.set_data(
                runtime,
                ContextData::new(),
                status,
            ) {
                Ok(()) => Creation::Entering { context },
                Err(e) => Creation::Finished { result: Err(e) },
            },
            Creation::Entering { context } => match context.make_current(runtime, status) {
                Ok(guard) => Creation::Subscribing { guard },
                Err(e) => Creation::Finished { result: Err(e) },
            },
            Creation::Subscribing { guard } => Creation::Leaving {
                guard,
                outcome: EngineError::check(status),
            },
            Creation::Leaving { guard, outcome } => {
                let context = guard.context();
                guard.release(runtime, status);
                Creation::Finished {
                    result: match outcome {
                        Ok(()) => Ok(context),
                        Err(e) => Err(e),
                    },
                }
            },
            Creation::Finished { result } => Creation::Finished { result },
        }
    }
}

} // verus!
