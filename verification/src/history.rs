//! What holds in every state that the hook can get into.

use vstd::prelude::*;
use crate::capture::{Creation, CreateEvent, CreateExEvent};
use crate::d3d::{Creator, DeviceHook};
use crate::device::{FrameEvent, InstallEvent, StateEvent, TargetEvent};
use crate::hooks::Hooks;
use crate::worker::{WorkerEvent, TICKS};

verus! {

/// Anything that changes what the hook remembers.
#[allow(inconsistent_fields)]
pub enum Event {
    Attach { reason: u32 },
    Worker { event: WorkerEvent },
    Create { event: CreateEvent },
    CreateEx { event: CreateExEvent },
    Install { event: InstallEvent },
    Target { event: TargetEvent },
    State { event: StateEvent },
    Frame { event: FrameEvent },
}

/// The event may be handed to the hook in this state.
pub open spec fn accepted(hooks: Hooks, event: Event) -> bool {
    match event {
        Event::Attach { .. } => true,
        Event::Worker { event } => {
            &&& event matches WorkerEvent::Tried { creator: Creator::Direct3DCreate9, .. }
                ==> hooks.real_d3d9_create != 0
            &&& event matches WorkerEvent::Slept { tick } ==> tick < TICKS
        },
        Event::Create { event } => {
            &&& hooks.creator_hooked(Creator::Direct3DCreate9)
            &&& event is Exchanged ==> hooks.orig_create_device is Some
        },
        Event::CreateEx { event } => {
            &&& hooks.creator_hooked(Creator::Direct3DCreate9Ex)
            &&& event is Exchanged ==> hooks.orig_create_device is Some
        },
        Event::Install { .. } => true,
        Event::Target { event } => {
            &&& hooks.device_hooked(DeviceHook::SetRenderTarget)
            &&& event matches TargetEvent::Described { surface, .. } ==> surface != 0
        },
        Event::State { .. } => hooks.device_hooked(DeviceHook::SetRenderState),
        Event::Frame { .. } => hooks.device_hooked(DeviceHook::EndScene),
    }
}

/// The state after an event.
pub open spec fn after_event(hooks: Hooks, event: Event) -> Hooks {
    match event {
        Event::Attach { reason } => crate::hooks::after_attach(hooks, reason),
        Event::Worker { event } => hooks.after_worker(event),
        Event::Create { event } => hooks.after_create(event),
        Event::CreateEx { event } => hooks.after_create_ex(event),
        Event::Install { event } => hooks.after_install(event),
        Event::Target { event } => hooks.after_target(event),
        Event::State { event } => hooks.after_state(event),
        Event::Frame { event } => hooks.after_frame(event),
    }
}

/// The state after some events.
pub open spec fn after_events(hooks: Hooks, events: Seq<Event>) -> Hooks
    decreases events.len(),
{
    if events.len() == 0 {
        hooks
    } else {
        after_event(after_events(hooks, events.drop_last()), events.last())
    }
}

/// Every event could be handed to the hook when it came.
pub open spec fn all_accepted(hooks: Hooks, events: Seq<Event>) -> bool
    decreases events.len(),
{
    events.len() == 0 || {
        &&& all_accepted(hooks, events.drop_last())
        &&& accepted(after_events(hooks, events.drop_last()), events.last())
    }
}

/// Nothing that was achieved at an earlier state is undone: what was started,
/// captured, replaced, hooked or recognised.
pub open spec fn keeps(earlier: Hooks, later: Hooks) -> bool {
    &&& earlier.bootstrap_started ==> later.bootstrap_started
    &&& earlier.device_captured ==> later.device_captured
    &&& earlier.orig_create_device is Some ==> later.orig_create_device is Some
    &&& earlier.real_d3d9_create != 0 ==> later.real_d3d9_create != 0
    &&& earlier.last_current_rt != 0 ==> later.last_current_rt != 0
    &&& earlier.last_video_rt != 0 ==> later.last_video_rt != 0
    &&& forall|creator: Creator|
        earlier.creator_hooked(creator) ==> #[trigger] later.creator_hooked(creator)
    &&& forall|hook: DeviceHook|
        earlier.device_hooked(hook) ==> #[trigger] later.device_hooked(hook)
}

/// No event undoes what was achieved before it.
pub proof fn law_nothing_is_undone(hooks: Hooks, event: Event)
    requires
        accepted(hooks, event),
    ensures
        keeps(hooks, after_event(hooks, event)),
{
}

/// In every state that the hook can get into, a captured root object comes with the
/// real `CreateDevice`, a hooked `Direct3DCreate9` with its address, and the worker
/// reports no forced frames.
pub proof fn law_every_state_is_sound(events: Seq<Event>)
    requires
        all_accepted(Hooks::initial(), events),
    ensures
        after_events(Hooks::initial(), events).wf(),
    decreases events.len(),
{
    if events.len() > 0 {
        law_every_state_is_sound(events.drop_last());
    }
}

/// What was achieved stays so through any further events.
pub proof fn law_nothing_is_ever_undone(hooks: Hooks, events: Seq<Event>)
    requires
        all_accepted(hooks, events),
    ensures
        keeps(hooks, after_events(hooks, events)),
    decreases events.len(),
{
    if events.len() > 0 {
        let before = events.drop_last();
        law_nothing_is_ever_undone(hooks, before);
        law_nothing_is_undone(after_events(hooks, before), events.last());
    }
}

/// The event sets the video setup state while a video surface is known.
pub open spec fn event_counts(hooks: Hooks, event: Event) -> bool {
    match event {
        Event::State { event: StateEvent::Returned { state, .. } } => hooks.counts(state),
        _ => false,
    }
}

/// The event makes the hook draw the video.
pub open spec fn event_draws(hooks: Hooks, event: Event) -> bool {
    match event {
        Event::State { event: StateEvent::Returned { state, .. } } => hooks.draws(state),
        _ => false,
    }
}

/// The event ends a frame.
pub open spec fn ends_frame(event: Event) -> bool {
    event matches Event::Frame { event: FrameEvent::Entered { .. } }
}

/// How many of some events count.
pub open spec fn counting_events(hooks: Hooks, events: Seq<Event>) -> nat
    decreases events.len(),
{
    if events.len() == 0 {
        0
    } else {
        counting_events(hooks, events.drop_last()) + if event_counts(
            after_events(hooks, events.drop_last()),
            events.last(),
        ) {
            1nat
        } else {
            0
        }
    }
}

/// How many of some events draw.
pub open spec fn drawing_events(hooks: Hooks, events: Seq<Event>) -> nat
    decreases events.len(),
{
    if events.len() == 0 {
        0
    } else {
        drawing_events(hooks, events.drop_last()) + if event_draws(
            after_events(hooks, events.drop_last()),
            events.last(),
        ) {
            1nat
        } else {
            0
        }
    }
}

/// How many of some events end a frame.
pub open spec fn ending_events(events: Seq<Event>) -> nat
    decreases events.len(),
{
    if events.len() == 0 {
        0
    } else {
        ending_events(events.drop_last()) + if ends_frame(events.last()) {
            1nat
        } else {
            0
        }
    }
}

/// Within a frame the video is drawn once if its setup state is set at all while a
/// video surface is known, and else not at all, whatever else happens meanwhile and
/// however calls overlap.
pub proof fn law_one_draw_within_frame(hooks: Hooks, events: Seq<Event>)
    requires
        hooks.rs_draw_count == 0,
        forall|i: int| 0 <= i < events.len() ==> !ends_frame(#[trigger] events[i]),
    ensures
        drawing_events(hooks, events) == if counting_events(hooks, events) > 0 {
            1nat
        } else {
            0
        },
        after_events(hooks, events).rs_draw_count == if counting_events(hooks, events)
            <= usize::MAX {
            counting_events(hooks, events)
        } else {
            usize::MAX as nat
        },
    decreases events.len(),
{
    if events.len() > 0 {
        let before = events.drop_last();
        assert forall|i: int| 0 <= i < before.len() implies !ends_frame(#[trigger] before[i]) by {
            assert(before[i] == events[i]);
        }
        law_one_draw_within_frame(hooks, before);
        assert(!ends_frame(events[events.len() - 1]));
    }
}

/// The draw of a frame is made at the first event that sets the video setup state
/// while a video surface is known, and at no later one, whatever else happens
/// meanwhile and however calls overlap.
pub proof fn law_first_event_draws(hooks: Hooks, before: Seq<Event>, event: Event)
    requires
        hooks.rs_draw_count == 0,
        forall|i: int| 0 <= i < before.len() ==> !ends_frame(#[trigger] before[i]),
    ensures
        event_draws(after_events(hooks, before), event) <==> event_counts(
            after_events(hooks, before),
            event,
        ) && counting_events(hooks, before) == 0,
{
    law_one_draw_within_frame(hooks, before);
}

/// Over any events, the video is drawn at most once more than frames end.
pub proof fn law_draws_and_ends(hooks: Hooks, events: Seq<Event>)
    ensures
        drawing_events(hooks, events) <= ending_events(events) + if after_events(
            hooks,
            events,
        ).rs_draw_count == 0 {
            0nat
        } else {
            1
        },
    decreases events.len(),
{
    if events.len() > 0 {
        law_draws_and_ends(hooks, events.drop_last());
    }
}

/// Something that happens as a whole: a call of one of the two functions that create
/// a root object, or any event outside such calls.
pub enum Happening {
    Creation { creation: Creation },
    Other { event: Event },
}

/// The event does not belong to a call that creates a root object.
pub open spec fn is_proper(happening: Happening) -> bool {
    match happening {
        Happening::Creation { .. } => true,
        Happening::Other { event } => !(event is Create) && !(event is CreateEx),
    }
}

/// The state after something happened as a whole.
pub open spec fn after_happening(hooks: Hooks, happening: Happening) -> Hooks {
    match happening {
        Happening::Creation { creation } => crate::capture::after_creation(hooks, creation),
        Happening::Other { event } => after_event(hooks, event),
    }
}

/// An object is captured.
pub open spec fn happening_captures(hooks: Hooks, happening: Happening) -> bool {
    match happening {
        Happening::Creation { creation } => crate::capture::creation_captures(hooks, creation),
        Happening::Other { .. } => false,
    }
}

/// The state after several things happened one after the other.
pub open spec fn after_happenings(hooks: Hooks, happenings: Seq<Happening>) -> Hooks
    decreases happenings.len(),
{
    if happenings.len() == 0 {
        hooks
    } else {
        after_happening(after_happenings(hooks, happenings.drop_last()), happenings.last())
    }
}

/// How many objects are captured meanwhile.
pub open spec fn captures_in(hooks: Hooks, happenings: Seq<Happening>) -> nat
    decreases happenings.len(),
{
    if happenings.len() == 0 {
        0
    } else {
        captures_in(hooks, happenings.drop_last()) + if happening_captures(
            after_happenings(hooks, happenings.drop_last()),
            happenings.last(),
        ) {
            1nat
        } else {
            0
        }
    }
}

/// Whatever happens, as long as calls that create a root object do not overlap, at
/// most one object is captured, and none if one was captured before.
pub proof fn law_one_capture(hooks: Hooks, happenings: Seq<Happening>)
    requires
        forall|i: int| 0 <= i < happenings.len() ==> is_proper(#[trigger] happenings[i]),
    ensures
        captures_in(hooks, happenings) + if hooks.device_captured {
            1nat
        } else {
            0
        } == if after_happenings(hooks, happenings).device_captured {
            1nat
        } else {
            0
        },
    decreases happenings.len(),
{
    if happenings.len() > 0 {
        let before = happenings.drop_last();
        assert forall|i: int| 0 <= i < before.len() implies is_proper(#[trigger] before[i]) by {
            assert(before[i] == happenings[i]);
        }
        law_one_capture(hooks, before);
        assert(is_proper(happenings[happenings.len() - 1]));
    }
}

/// Once an object is captured, the remembered `CreateDevice` keeps its value, as long
/// as calls that create a root object do not overlap.
pub proof fn law_captured_method_is_kept(hooks: Hooks, happenings: Seq<Happening>)
    requires
        hooks.device_captured,
        forall|i: int| 0 <= i < happenings.len() ==> is_proper(#[trigger] happenings[i]),
    ensures
        after_happenings(hooks, happenings).device_captured,
        after_happenings(hooks, happenings).orig_create_device == hooks.orig_create_device,
    decreases happenings.len(),
{
    if happenings.len() > 0 {
        let before = happenings.drop_last();
        assert forall|i: int| 0 <= i < before.len() implies is_proper(#[trigger] before[i]) by {
            assert(before[i] == happenings[i]);
        }
        law_captured_method_is_kept(hooks, before);
        assert(is_proper(happenings[happenings.len() - 1]));
    }
}

} // verus!
