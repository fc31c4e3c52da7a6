//! What follows from the contracts of the operations, taken together.

use vstd::prelude::*;
use crate::context::Context;
use crate::context::ContextGuard;
use crate::context::Creation;
use crate::data::user_data_len;
use crate::error::EngineError;
use crate::error::NO_ERROR;
use crate::runtime::Runtime;
use crate::value::Function;

verus! {

/// Nested guards unwind. Let `contexts` be made current one inside the
/// other, `entering[i]` being the runtime before and `entering[i + 1]` the
/// runtime after the `i`-th `make_current`, and let the guards be released
/// innermost first, `leaving[i + 1]` being the runtime before and
/// `leaving[i]` the runtime after the release of the `i`-th guard. Then each
/// release leaves current what was current before the guard was made, and
/// after the outermost release no context is current if none was at the
/// start.
pub proof fn lemma_nested_guards_unwind(
    contexts: Seq<Context>,
    guards: Seq<ContextGuard>,
    entering: Seq<Runtime>,
    leaving: Seq<Runtime>,
)
    requires
        guards.len() == contexts.len(),
        entering.len() == contexts.len() + 1,
        leaving.len() == contexts.len() + 1,
        forall|i: int|
            0 <= i < contexts.len() ==> (#[trigger] guards[i]).made_by(
                contexts[i],
                entering[i],
                entering[i + 1],
            ),
        forall|i: int|
            0 <= i < contexts.len() ==> (#[trigger] guards[i]).released(leaving[i + 1], leaving[i]),
    ensures
        forall|i: int|
            0 <= i < contexts.len() ==> (#[trigger] leaving[i]).current() == entering[i].current(),
        forall|i: int|
            0 < i < contexts.len() ==> (#[trigger] leaving[i]).current() == Context::in_slot(
                contexts[i - 1].raw,
            ),
        contexts.len() > 0 && entering[0].current() is None ==> leaving[0].current() is None,
{
    assert forall|i: int| 0 <= i < contexts.len() implies (#[trigger] leaving[i]).current()
        == entering[i].current() by {
        assert(guards[i].made_by(contexts[i], entering[i], entering[i + 1]));
        assert(guards[i].released(leaving[i + 1], leaving[i]));
    }
    assert forall|i: int| 0 < i < contexts.len() implies (#[trigger] leaving[i]).current()
        == Context::in_slot(contexts[i - 1].raw) by {
        assert(guards[i - 1].made_by(contexts[i - 1], entering[i - 1], entering[i]));
    }
}

/// A guard that only looks is inert: whatever the runtime it was obtained
/// from, its release changes neither the current context nor any record.
pub proof fn lemma_observing_guard_is_inert(
    guard: ContextGuard,
    observed: Runtime,
    before: Runtime,
    after: Runtime,
)
    requires
        guard.observes(observed),
        guard.released(before, after),
    ensures
        after.agrees_with(before),
{
}

/// A collected context is gone, and only it: once its record is dropped the
/// context is not alive, so that no operation on its record can be called
/// again, and the other contexts keep their records.
pub proof fn lemma_collect_drops_one_record(before: Runtime, after: Runtime, context: Context)
    requires
        after.records() == before.records().remove(context),
    ensures
        !after.hosts(context),
        forall|other: Context|
            other != context ==> after.hosts(other) == before.hosts(other),
        forall|other: Context|
            other != context && before.hosts(other) ==> after.record(other) == before.record(other),
{
}

/// A context that has just been given a record has that record, and only
/// this context's record has changed.
pub proof fn lemma_attach_gives_one_record(before: Runtime, after: Runtime, context: Context)
    requires
        after.records() == before.records().insert(context, after.record(context)),
    ensures
        after.hosts(context),
        forall|other: Context|
            other != context ==> after.hosts(other) == before.hosts(other),
        forall|other: Context|
            other != context && before.hosts(other) ==> after.record(other) == before.record(other),
{
}

/// Tasks come out last in, first out: of two tasks queued one after the
/// other, the second is taken first and the first next, and the queue is
/// then what it was before the two were queued.
pub proof fn lemma_last_queued_task_runs_first(
    runtimes: Seq<Runtime>,
    context: Context,
    first: Function,
    second: Function,
    taken_first: Option<Function>,
    taken_next: Option<Function>,
)
    requires
        runtimes.len() == 5,
        Runtime::queued(runtimes[0], runtimes[1], context, first),
        Runtime::queued(runtimes[1], runtimes[2], context, second),
        Runtime::taken(runtimes[2], runtimes[3], context, taken_first),
        Runtime::taken(runtimes[3], runtimes[4], context, taken_next),
    ensures
        taken_first == Some(second),
        taken_next == Some(first),
        runtimes[4].record(context) == runtimes[0].record(context),
        runtimes[4].current() == runtimes[0].current(),
{
    let tasks = runtimes[0].record(context).tasks;
    assert(tasks.push(first).push(second).drop_last() =~= tasks.push(first));
    assert(tasks.push(first).drop_last() =~= tasks);
}

/// A task that is queued while another runs is the next to run: it is taken
/// before the tasks that waited already, and those wait as before.
pub proof fn lemma_task_queued_meanwhile_runs_next(
    runtimes: Seq<Runtime>,
    context: Context,
    running: Option<Function>,
    queued_meanwhile: Function,
    next: Option<Function>,
)
    requires
        runtimes.len() == 4,
        Runtime::taken(runtimes[0], runtimes[1], context, running),
        running is Some,
        Runtime::queued(runtimes[1], runtimes[2], context, queued_meanwhile),
        Runtime::taken(runtimes[2], runtimes[3], context, next),
    ensures
        next == Some(queued_meanwhile),
        runtimes[3].record(context).tasks == runtimes[0].record(context).tasks.drop_last(),
{
    let waiting = runtimes[1].record(context).tasks;
    assert(waiting.push(queued_meanwhile).drop_last() =~= waiting);
}

/// Taking tasks ends on an empty queue: nothing comes out exactly when no
/// task waits, and then none waits afterwards either.
pub proof fn lemma_no_task_means_empty_queue(
    before: Runtime,
    after: Runtime,
    context: Context,
    task: Option<Function>,
)
    requires
        Runtime::taken(before, after, context, task),
    ensures
        task is None <==> before.record(context).tasks.len() == 0,
        task is None ==> after.record(context).tasks.len() == 0,
        task is Some ==> after.record(context).tasks.len() + 1 == before.record(context).tasks.len(),
{
}

/// A run of a creation: it starts with nothing done, and each state follows
/// from the one before it by one step.
pub open spec fn creation_run(
    states: Seq<Creation>,
    runtimes: Seq<Runtime>,
    statuses: Seq<u32>,
    references: Seq<usize>,
) -> bool {
    &&& states.len() == statuses.len() + 1
    &&& runtimes.len() == statuses.len() + 1
    &&& references.len() == statuses.len()
    &&& states[0] == Creation::Allocating
    &&& forall|i: int|
        0 <= i < statuses.len() ==> (#[trigger] states[i]).step(
            runtimes[i],
            statuses[i],
            references[i],
            states[i + 1],
            runtimes[i + 1],
        )
}

spec fn keeps_current(state: Creation, runtime: Runtime, origin: Option<Context>) -> bool {
    match state {
        Creation::Subscribing { guard } => guard.previous() == origin && guard.restores(),
        Creation::Leaving { guard, outcome } => guard.previous() == origin && guard.restores(),
        _ => runtime.current() == origin,
    }
}

proof fn lemma_run_keeps_current(
    states: Seq<Creation>,
    runtimes: Seq<Runtime>,
    statuses: Seq<u32>,
    references: Seq<usize>,
    k: int,
)
    requires
        creation_run(states, runtimes, statuses, references),
        0 <= k <= statuses.len(),
    ensures
        keeps_current(states[k], runtimes[k], runtimes[0].current()),
    decreases k,
{
    if k > 0 {
        lemma_run_keeps_current(states, runtimes, statuses, references, k - 1);
        assert(states[k - 1].step(
            runtimes[k - 1],
            statuses[k - 1],
            references[k - 1],
            states[k],
            runtimes[k],
        ));
    }
}

/// A creation changes the current context only while it runs: whenever it
/// waits for anything but the two requests that follow the entering of the
/// new context, and so when it has finished, the context that was current
/// at its start is current.
pub proof fn lemma_creation_restores_current(
    states: Seq<Creation>,
    runtimes: Seq<Runtime>,
    statuses: Seq<u32>,
    references: Seq<usize>,
)
    requires
        creation_run(states, runtimes, statuses, references),
    ensures
        forall|k: int|
            0 <= k <= statuses.len() && !((#[trigger] states[k]) is Subscribing) && !(states[k]
                is Leaving) ==> runtimes[k].current() == runtimes[0].current(),
{
    assert forall|k: int|
        0 <= k <= statuses.len() && !((#[trigger] states[k]) is Subscribing) && !(states[k]
            is Leaving) implies runtimes[k].current() == runtimes[0].current() by {
        lemma_run_keeps_current(states, runtimes, statuses, references, k);
    }
}

/// A creation in which the engine accepts every request finishes after six
/// steps with the context of the handle that the engine gave. The context
/// is then alive, with no task and no user data.
pub proof fn lemma_accepted_creation_succeeds(
    states: Seq<Creation>,
    runtimes: Seq<Runtime>,
    statuses: Seq<u32>,
    references: Seq<usize>,
)
    requires
        creation_run(states, runtimes, statuses, references),
        statuses.len() == 6,
        forall|i: int| 0 <= i < 6 ==> statuses[i] == NO_ERROR,
    ensures
        states[6] == (Creation::Finished { result: Ok(Context { raw: references[0] }) }),
        runtimes[6].hosts(Context { raw: references[0] }),
        runtimes[6].record(Context { raw: references[0] }).tasks == Seq::<Function>::empty(),
        user_data_len(runtimes[6].record(Context { raw: references[0] }).user_data) == 0,
        runtimes[6].current() == runtimes[0].current(),
{
    let context = Context { raw: references[0] };
    assert(states[0].step(runtimes[0], statuses[0], references[0], states[1], runtimes[1]));
    assert(states[1].step(runtimes[1], statuses[1], references[1], states[2], runtimes[2]));
    assert(states[2].step(runtimes[2], statuses[2], references[2], states[3], runtimes[3]));
    assert(states[3].step(runtimes[3], statuses[3], references[3], states[4], runtimes[4]));
    assert(states[4].step(runtimes[4], statuses[4], references[4], states[5], runtimes[5]));
    assert(states[5].step(runtimes[5], statuses[5], references[5], states[6], runtimes[6]));
    assert(states[3] == Creation::Entering { context });
    assert(runtimes[3].hosts(context));
    lemma_creation_restores_current(states, runtimes, statuses, references);
}

spec fn accepted(statuses: Seq<u32>, n: int) -> bool {
    forall|i: int| 0 <= i < n ==> #[trigger] statuses[i] == NO_ERROR
}

spec fn refused(statuses: Seq<u32>, n: int, code: u32) -> bool {
    code != NO_ERROR && exists|i: int| 0 <= i < n && i < 5 && #[trigger] statuses[i] == code
}

spec fn tracks_refusals(state: Creation, statuses: Seq<u32>, k: int) -> bool {
    match state {
        Creation::Allocating => k == 0,
        Creation::Watching { context } => k == 1 && accepted(statuses, 1),
        Creation::Attaching { context } => k == 2 && accepted(statuses, 2),
        Creation::Entering { context } => k == 3 && accepted(statuses, 3),
        Creation::Subscribing { guard } => k == 4 && accepted(statuses, 4),
        Creation::Leaving { guard, outcome } => k == 5 && accepted(statuses, 4) && outcome
            == EngineError::checked(statuses[4]),
        Creation::Finished { result } => match result {
            Ok(context) => k >= 6 && accepted(statuses, 5),
            Err(e) => refused(statuses, k, e.code),
        },
    }
}

proof fn lemma_run_tracks_refusals(
    states: Seq<Creation>,
    runtimes: Seq<Runtime>,
    statuses: Seq<u32>,
    references: Seq<usize>,
    k: int,
)
    requires
        creation_run(states, runtimes, statuses, references),
        0 <= k <= statuses.len(),
    ensures
        tracks_refusals(states[k], statuses, k),
    decreases k,
{
    if k > 0 {
        lemma_run_tracks_refusals(states, runtimes, statuses, references, k - 1);
        assert(states[k - 1].step(
            runtimes[k - 1],
            statuses[k - 1],
            references[k - 1],
            states[k],
            runtimes[k],
        ));
        let status = statuses[k - 1];
        match states[k - 1] {
            Creation::Finished { result } => {
                if let Err(e) = result {
                    let i = choose|i: int| 0 <= i < k - 1 && i < 5 && #[trigger] statuses[i] == e.code;
                    assert(0 <= i < k && i < 5 && statuses[i] == e.code);
                }
            },
            Creation::Leaving { guard, outcome } => {
                if outcome is Err {
                    assert(0 <= 4 < k && statuses[4] == outcome->Err_0.code);
                }
            },
            Creation::Subscribing { guard } => {},
            _ => {
                if status != NO_ERROR {
                    assert(0 <= k - 1 < k && k - 1 < 5 && statuses[k - 1] == status);
                }
            },
        }
    }
}

/// A creation fails exactly when the engine refuses a request, and with
/// that request's status: one that has finished with a context has had its
/// first five requests accepted, and one that has finished with an error
/// carries the status, other than `NO_ERROR`, of one of them.
pub proof fn lemma_creation_fails_with_refused_status(
    states: Seq<Creation>,
    runtimes: Seq<Runtime>,
    statuses: Seq<u32>,
    references: Seq<usize>,
    k: int,
)
    requires
        creation_run(states, runtimes, statuses, references),
        0 <= k <= statuses.len(),
        states[k] is Finished,
    ensures
        match states[k]->result {
            Ok(context) => k >= 6 && forall|i: int| 0 <= i < 5 ==> #[trigger] statuses[i] == NO_ERROR,
            Err(e) => e.code != NO_ERROR && exists|i: int|
                0 <= i < k && i < 5 && #[trigger] statuses[i] == e.code,
        },
{
    lemma_run_tracks_refusals(states, runtimes, statuses, references, k);
}

} // verus!
