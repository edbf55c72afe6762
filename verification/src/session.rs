//! What holds over a whole run of the worker thread.

use vstd::prelude::*;
use crate::d3d::Creator;
use crate::hooks::Hooks;
use crate::message::Message;
use crate::worker::{WorkerAction, WorkerEvent, TICKS};

verus! {

/// A step of the worker: what the hook remembers at that moment, to which the
/// game's threads contribute too, and what happened.
pub struct WorkerStep {
    pub hooks: Hooks,
    pub event: WorkerEvent,
}

/// The event is a possible result of the action.
pub open spec fn answers(action: WorkerAction, event: WorkerEvent) -> bool {
    match action {
        WorkerAction::Preload => event is Preloaded,
        WorkerAction::FindModule => event is Found || event is NotFound,
        WorkerAction::FindSymbol { module, creator } => event matches WorkerEvent::Resolved {
            module: m,
            creator: c,
            ..
        } && m == module && c == creator,
        WorkerAction::Attach { module, creator, .. } => event matches WorkerEvent::Tried {
            module: m,
            creator: c,
            ..
        } && m == module && c == creator,
        WorkerAction::Sleep { tick, .. } => event == (WorkerEvent::Slept { tick }),
        WorkerAction::Exit => false,
    }
}

/// What the worker does after a step.
pub open spec fn action_of(step: WorkerStep) -> WorkerAction {
    crate::worker::worker_action(step.event)
}

/// A step's event is the result of what the worker did after the step before.
pub open spec fn follows(steps: Seq<WorkerStep>, i: int) -> bool {
    answers(action_of(steps[i]), steps[i + 1].event)
}

/// The steps of a worker, as far as it has come.
pub open spec fn is_run(steps: Seq<WorkerStep>) -> bool {
    &&& steps.len() > 0
    &&& steps[0].event is Started
    &&& forall|i: int| 0 <= i < steps.len() - 1 ==> #[trigger] follows(steps, i)
}

/// The worker has come to its end.
pub open spec fn has_ended(steps: Seq<WorkerStep>) -> bool {
    action_of(steps.last()) is Exit
}

/// Number of naps taken in some steps.
pub open spec fn naps(steps: Seq<WorkerStep>) -> nat
    decreases steps.len(),
{
    if steps.len() == 0 {
        0
    } else {
        naps(steps.drop_last()) + if steps.last().event is Slept {
            1nat
        } else {
            0
        }
    }
}

/// Number of reports among some lines of the log.
pub open spec fn reports_among(log: Seq<Message>) -> nat
    decreases log.len(),
{
    if log.len() == 0 {
        0
    } else {
        reports_among(log.drop_last()) + if log.last() is Heartbeat {
            1nat
        } else {
            0
        }
    }
}

/// Number of reports logged in some steps.
pub open spec fn reports(steps: Seq<WorkerStep>) -> nat
    decreases steps.len(),
{
    if steps.len() == 0 {
        0
    } else {
        reports(steps.drop_last()) + reports_among(
            crate::worker::worker_log(steps.last().hooks, steps.last().event),
        )
    }
}

/// Number of attempts to hook a function in some steps.
pub open spec fn attempts(steps: Seq<WorkerStep>, creator: Creator) -> nat
    decreases steps.len(),
{
    if steps.len() == 0 {
        0
    } else {
        attempts(steps.drop_last(), creator) + if (steps.last().event matches WorkerEvent::Tried {
            creator: c,
            ..
        } && c == creator) {
            1nat
        } else {
            0
        }
    }
}

/// The lines after which a report may stand, followed by the report at `tick`, hold
/// one report if one is due.
proof fn lemma_report_counted(hooks: Hooks, before: Seq<Message>, tick: int)
    requires
        before.len() <= 1,
        before.len() == 1 ==> !(before[0] is Heartbeat),
    ensures
        reports_among(before) == 0,
        reports_among(before + crate::worker::report(hooks, tick)) == if tick < TICKS && tick
            % 1200 == 0 {
            1nat
        } else {
            0
        },
{
    reveal_with_fuel(reports_among, 3);
    let report = crate::worker::report(hooks, tick);
    let all = before + report;
    if before.len() == 1 {
        assert(before.drop_last() =~= Seq::<Message>::empty());
    }
    if report.len() == 1 {
        assert(all.drop_last() =~= before);
        assert(all.last() == report[0]);
    } else {
        assert(all =~= before);
    }
}

/// The first step, if there are several, whose action is the nap of the first tick;
/// before it there are neither naps nor reports, and each function was tried at
/// most once.
proof fn lemma_ticks_begin(steps: Seq<WorkerStep>) -> (p: int)
    requires
        is_run(steps),
        steps.len() > 6 || has_ended(steps),
        steps.len() > 2,
        steps[2].event is Found,
    ensures
        4 <= p <= 6,
        p < steps.len(),
        action_of(steps[p]) == crate::worker::nap(0),
        naps(steps.take(p + 1)) == 0,
        reports(steps.take(p + 1)) == 1,
        attempts(steps.take(p + 1), Creator::Direct3DCreate9) <= 1,
        attempts(steps.take(p + 1), Creator::Direct3DCreate9Ex) <= 1,
{
    let first = Creator::Direct3DCreate9;
    let second = Creator::Direct3DCreate9Ex;
    assert(follows(steps, 0));
    assert(follows(steps, 1));
    assert(!(action_of(steps[2]) is Exit));
    assert(follows(steps, 2));
    assert(!(action_of(steps[3]) is Exit));
    assert(follows(steps, 3));
    let p: int = if action_of(steps[3]) is Attach {
        assert(!(action_of(steps[4]) is Exit));
        assert(follows(steps, 4));
        if action_of(steps[5]) is Attach {
            assert(follows(steps, 5));
            6
        } else {
            5
        }
    } else {
        if action_of(steps[4]) is Attach {
            assert(follows(steps, 4));
            5
        } else {
            4
        }
    };
    lemma_counts_step(steps, 0);
    lemma_counts_step(steps, 1);
    lemma_counts_step(steps, 2);
    lemma_counts_step(steps, 3);
    lemma_counts_step(steps, 4);
    if p >= 5 {
        lemma_counts_step(steps, 5);
    }
    if p >= 6 {
        lemma_counts_step(steps, 6);
    }
    assert(steps.take(0) =~= Seq::<WorkerStep>::empty());
    assert forall|i: int| 0 <= i <= p implies reports_among(
        #[trigger] crate::worker::worker_log(steps[i].hooks, steps[i].event),
    ) == if i == p {
        1nat
    } else {
        0
    } by {
        let hooks = steps[i].hooks;
        let event = steps[i].event;
        match event {
            WorkerEvent::Tried { creator, outcome, .. } => {
                let before = crate::hooks::only_if(
                    outcome is Enabled,
                    Message::CreatorHooked { creator },
                );
                lemma_report_counted(hooks, before, 0);
                if i < p {
                    assert(crate::worker::worker_log(hooks, event) =~= before);
                }
            },
            WorkerEvent::Resolved { .. } => {
                let none = Seq::<Message>::empty();
                lemma_report_counted(hooks, none, 0);
                assert(none + crate::worker::report(hooks, 0) =~= crate::worker::report(hooks, 0));
            },
            _ => {
                reveal_with_fuel(reports_among, 2);
            },
        }
    }
    p
}

/// How one more step changes the counts.
proof fn lemma_counts_step(steps: Seq<WorkerStep>, i: int)
    requires
        0 <= i < steps.len(),
    ensures
        naps(steps.take(i + 1)) == naps(steps.take(i)) + if steps[i].event is Slept {
            1nat
        } else {
            0
        },
        reports(steps.take(i + 1)) == reports(steps.take(i)) + reports_among(
            crate::worker::worker_log(steps[i].hooks, steps[i].event),
        ),
        forall|creator: Creator|
            #[trigger] attempts(steps.take(i + 1), creator) == attempts(steps.take(i), creator)
                + if (steps[i].event matches WorkerEvent::Tried { creator: c, .. } && c
                == creator) {
                1nat
            } else {
                0
            },
{
    assert(steps.take(i + 1).drop_last() =~= steps.take(i));
    assert(steps.take(i + 1).last() == steps[i]);
}

/// The `k`-th step after the ticks have begun.
proof fn lemma_ticks_go_on(steps: Seq<WorkerStep>, p: int, k: int)
    requires
        is_run(steps),
        p + k < steps.len() || has_ended(steps),
        0 <= p < steps.len(),
        action_of(steps[p]) == crate::worker::nap(0),
        naps(steps.take(p + 1)) == 0,
        reports(steps.take(p + 1)) == 1,
        attempts(steps.take(p + 1), Creator::Direct3DCreate9) <= 1,
        attempts(steps.take(p + 1), Creator::Direct3DCreate9Ex) <= 1,
        0 <= k <= TICKS,
    ensures
        p + k < steps.len(),
        action_of(steps[p + k]) == crate::worker::nap(k),
        naps(steps.take(p + k + 1)) == k,
        reports(steps.take(p + k + 1)) == if k < TICKS {
            k / 1200 + 1
        } else {
            100
        },
        attempts(steps.take(p + k + 1), Creator::Direct3DCreate9) <= 1,
        attempts(steps.take(p + k + 1), Creator::Direct3DCreate9Ex) <= 1,
    decreases k,
{
    if k > 0 {
        lemma_ticks_go_on(steps, p, k - 1);
        let i = p + k - 1;
        assert(!(action_of(steps[i]) is Exit));
        assert(i < steps.len() - 1);
        assert(follows(steps, i));
        lemma_counts_step(steps, i + 1);
        let none = Seq::<Message>::empty();
        let hooks = steps[i + 1].hooks;
        lemma_report_counted(hooks, none, k);
        assert(none + crate::worker::report(hooks, k) =~= crate::worker::report(hooks, k));
    }
}

/// A worker that finds the library takes exactly as many naps as there are ticks,
/// reports a hundred times, and tries to hook each function at most once.
pub proof fn law_worker_runs_all_ticks(steps: Seq<WorkerStep>)
    requires
        is_run(steps),
        has_ended(steps),
        steps.len() > 2,
        steps[2].event is Found,
    ensures
        naps(steps) == TICKS,
        reports(steps) == 100,
        attempts(steps, Creator::Direct3DCreate9) <= 1,
        attempts(steps, Creator::Direct3DCreate9Ex) <= 1,
        TICKS + 5 <= steps.len() <= TICKS + 7,
{
    let p = lemma_ticks_begin(steps);
    lemma_ticks_go_on(steps, p, TICKS as int);
    let last = p + TICKS;
    if last < steps.len() - 1 {
        assert(follows(steps, last));
    }
    assert(steps.take(last + 1) =~= steps);
}

/// The worker comes to an end whatever happens: a run has only so many steps.
pub proof fn law_worker_ends(steps: Seq<WorkerStep>)
    requires
        is_run(steps),
    ensures
        steps.len() <= TICKS + 7,
{
    if steps.len() > TICKS + 7 {
        assert(follows(steps, 0));
        assert(follows(steps, 1));
        assert(follows(steps, 2));
        let p = lemma_ticks_begin(steps);
        lemma_ticks_go_on(steps, p, TICKS as int);
        assert(follows(steps, p + TICKS));
    }
}

/// Whatever answers a step of the worker may be handed to the worker: a nap that is
/// over was one of the ticks, and the real `Direct3DCreate9` is known by the time it
/// is hooked. Nothing but the worker changes that address.
pub proof fn law_answers_are_accepted(step: WorkerStep, next: WorkerStep)
    requires
        answers(action_of(step), next.event),
        next.hooks.real_d3d9_create == step.hooks.after_worker(step.event).real_d3d9_create,
    ensures
        next.event matches WorkerEvent::Tried { creator: Creator::Direct3DCreate9, .. }
            ==> next.hooks.real_d3d9_create != 0,
        next.event matches WorkerEvent::Slept { tick } ==> tick < TICKS,
{
}

/// A worker that does not find the library ends at once: it has hooked nothing,
/// taken no nap and reported nothing.
pub proof fn law_worker_gives_up(steps: Seq<WorkerStep>)
    requires
        is_run(steps),
        has_ended(steps),
        steps.len() <= 2 || !(steps[2].event is Found),
    ensures
        steps.len() == 3,
        steps[2].event is NotFound,
        naps(steps) == 0,
        reports(steps) == 0,
        attempts(steps, Creator::Direct3DCreate9) == 0,
        attempts(steps, Creator::Direct3DCreate9Ex) == 0,
{
    assert(follows(steps, 0));
    assert(follows(steps, 1));
    if steps.len() > 3 {
        assert(follows(steps, 2));
    }
    lemma_counts_step(steps, 0);
    lemma_counts_step(steps, 1);
    lemma_counts_step(steps, 2);
    assert(steps.take(0) =~= Seq::<WorkerStep>::empty());
    assert(steps.take(3) =~= steps);
    reveal_with_fuel(reports_among, 2);
}

/// No event of the worker thread unhooks a function, forgets a captured object or
/// touches what the device detours count.
pub proof fn law_worker_keeps_the_rest(hooks: Hooks, event: WorkerEvent, creator: Creator)
    ensures
        hooks.creator_hooked(creator) ==> hooks.after_worker(event).creator_hooked(creator),
        hooks.after_worker(event) == (Hooks {
            real_d3d9_create: hooks.after_worker(event).real_d3d9_create,
            create_hooked: hooks.after_worker(event).create_hooked,
            create_ex_hooked: hooks.after_worker(event).create_ex_hooked,
            ..hooks
        }),
{
}

} // verus!
