//! What holds over many calls of the device: a video is drawn at most once per
//! frame, at the first call that sets a video up.

use vstd::prelude::*;
use crate::device::{FrameEvent, InstallEvent, StateEvent, TargetEvent};
use crate::d3d::DeviceHook;
use crate::hooks::{Hooks, Outcome};

verus! {

/// A call of a watched method, with everything that outside calls returned.
pub enum Call {
    /// `SetRenderState`. `drawn` is the status of the forced draw call, if there is
    /// one.
    SetRenderState { device: usize, state: u32, value: u32, status: i32, drawn: i32 },
    /// `SetRenderTarget`. `reply` is the surface's description, if it is asked for.
    SetRenderTarget {
        device: usize,
        index: u32,
        surface: usize,
        status: i32,
        reply: (i32, [u32; 8]),
    },
    /// `EndScene`.
    EndScene { device: usize, status: i32 },
}

/// The call binds a video surface.
pub open spec fn binds_video(call: Call) -> bool {
    match call {
        Call::SetRenderTarget { status, index, surface, reply, .. } => {
            let desc = crate::d3d::described(Some(reply));
            &&& crate::device::binds(status, index, surface)
            &&& crate::d3d::is_video(desc.0, desc.1, desc.2)
        },
        _ => false,
    }
}

/// The call is one of those among which the first of a frame draws.
pub open spec fn call_counts(hooks: Hooks, call: Call) -> bool {
    match call {
        Call::SetRenderState { state, .. } => hooks.counts(state),
        _ => false,
    }
}

/// The call makes the hook draw the video.
pub open spec fn call_draws(hooks: Hooks, call: Call) -> bool {
    match call {
        Call::SetRenderState { state, .. } => hooks.draws(state),
        _ => false,
    }
}

/// The state after a whole call.
pub open spec fn after_call(hooks: Hooks, call: Call) -> Hooks {
    match call {
        Call::SetRenderState { device, state, value, status, drawn } => {
            let returned = hooks.after_state(
                StateEvent::Entered { device, state, value },
            ).after_state(StateEvent::Returned { device, status, state });
            if hooks.draws(state) {
                returned.after_state(StateEvent::Drawn { status, drawn })
            } else {
                returned
            }
        },
        Call::SetRenderTarget { device, index, surface, status, reply } => {
            let n = hooks.srt_count;
            let returned = hooks.after_target(
                TargetEvent::Entered { device, index, surface },
            ).after_target(TargetEvent::Returned { n, status, index, surface });
            if crate::device::binds(status, index, surface) {
                returned.after_target(TargetEvent::Described { n, status, surface, reply })
            } else {
                returned
            }
        },
        Call::EndScene { device, status } => hooks.after_frame(
            FrameEvent::Entered { device },
        ).after_frame(FrameEvent::Returned { n: hooks.es_count, status }),
    }
}

/// The state after a sequence of calls.
pub open spec fn run(hooks: Hooks, calls: Seq<Call>) -> Hooks
    decreases calls.len(),
{
    if calls.len() == 0 {
        hooks
    } else {
        after_call(run(hooks, calls.drop_last()), calls.last())
    }
}

/// How often the video is drawn during a sequence of calls.
pub open spec fn draws_in(hooks: Hooks, calls: Seq<Call>) -> nat
    decreases calls.len(),
{
    if calls.len() == 0 {
        0
    } else {
        draws_in(hooks, calls.drop_last()) + if call_draws(
            run(hooks, calls.drop_last()),
            calls.last(),
        ) {
            1nat
        } else {
            0
        }
    }
}

/// How often the video setup state is set during a sequence of calls while a video
/// surface is known.
pub open spec fn counted_in(hooks: Hooks, calls: Seq<Call>) -> nat
    decreases calls.len(),
{
    if calls.len() == 0 {
        0
    } else {
        counted_in(hooks, calls.drop_last()) + if call_counts(
            run(hooks, calls.drop_last()),
            calls.last(),
        ) {
            1nat
        } else {
            0
        }
    }
}

/// The calls all belong to one frame.
pub open spec fn within_frame(calls: Seq<Call>) -> bool {
    forall|i: int| 0 <= i < calls.len() ==> !(#[trigger] calls[i] is EndScene)
}

/// Within a frame the video is drawn once if its setup state is set at all while a
/// video surface is known, and else not at all, however many calls the frame holds.
pub proof fn law_one_draw_per_frame(hooks: Hooks, calls: Seq<Call>)
    requires
        hooks.rs_draw_count == 0,
        within_frame(calls),
    ensures
        draws_in(hooks, calls) == if counted_in(hooks, calls) > 0 {
            1nat
        } else {
            0
        },
        run(hooks, calls).rs_draw_count == if counted_in(hooks, calls) <= usize::MAX {
            counted_in(hooks, calls)
        } else {
            usize::MAX as nat
        },
    decreases calls.len(),
{
    if calls.len() > 0 {
        let before = calls.drop_last();
        assert(within_frame(before)) by {
            assert forall|i: int| 0 <= i < before.len() implies !(#[trigger] before[i] is EndScene) by {
                assert(before[i] == calls[i]);
            }
        }
        assert(!(calls[calls.len() - 1] is EndScene));
        law_one_draw_per_frame(hooks, before);
    }
}

/// The draw of a frame happens at the first call that sets the video setup state
/// while a video surface is known, and at no later one.
pub proof fn law_first_call_draws(hooks: Hooks, before: Seq<Call>, call: Call)
    requires
        hooks.rs_draw_count == 0,
        within_frame(before),
    ensures
        call_draws(run(hooks, before), call) <==> call_counts(run(hooks, before), call)
            && counted_in(hooks, before) == 0,
{
    law_one_draw_per_frame(hooks, before);
}

/// The end of a frame makes the next frame draw again.
pub proof fn law_next_frame_draws(hooks: Hooks, device: usize, status: i32, state: u32)
    ensures
        after_call(hooks, Call::EndScene { device, status }).rs_draw_count == 0,
        after_call(hooks, Call::EndScene { device, status }).draws(state) <==> hooks.counts(state),
{
}

/// A whole frame: the calls before its end, and the device and the status of the
/// `EndScene` that ends it.
pub struct Frame {
    pub calls: Seq<Call>,
    pub device: usize,
    pub status: i32,
}

/// The state after some whole frames.
pub open spec fn after_frames(hooks: Hooks, frames: Seq<Frame>) -> Hooks
    decreases frames.len(),
{
    if frames.len() == 0 {
        hooks
    } else {
        let frame = frames.last();
        after_call(
            run(after_frames(hooks, frames.drop_last()), frame.calls),
            Call::EndScene { device: frame.device, status: frame.status },
        )
    }
}

/// How often the video is drawn during some whole frames.
pub open spec fn draws_in_frames(hooks: Hooks, frames: Seq<Frame>) -> nat
    decreases frames.len(),
{
    if frames.len() == 0 {
        0
    } else {
        draws_in_frames(hooks, frames.drop_last()) + draws_in(
            after_frames(hooks, frames.drop_last()),
            frames.last().calls,
        )
    }
}

/// No frame has an end in its midst.
pub open spec fn proper_frames(frames: Seq<Frame>) -> bool {
    forall|i: int| 0 <= i < frames.len() ==> within_frame(#[trigger] frames[i].calls)
}

/// However many frames the game shows, the video is drawn at most once in each.
pub proof fn law_no_more_draws_than_frames(hooks: Hooks, frames: Seq<Frame>)
    requires
        hooks.rs_draw_count == 0,
        proper_frames(frames),
    ensures
        draws_in_frames(hooks, frames) <= frames.len(),
        after_frames(hooks, frames).rs_draw_count == 0,
    decreases frames.len(),
{
    if frames.len() > 0 {
        let before = frames.drop_last();
        assert forall|i: int| 0 <= i < before.len() implies within_frame(
            #[trigger] before[i].calls,
        ) by {
            assert(before[i] == frames[i]);
        }
        law_no_more_draws_than_frames(hooks, before);
        assert(within_frame(frames[frames.len() - 1].calls));
        law_one_draw_per_frame(after_frames(hooks, before), frames.last().calls);
    }
}

/// No draw call is issued before a video surface has been bound.
pub proof fn law_no_draw_without_video(hooks: Hooks, calls: Seq<Call>)
    requires
        hooks.last_video_rt == 0,
        forall|i: int| 0 <= i < calls.len() ==> !binds_video(#[trigger] calls[i]),
    ensures
        draws_in(hooks, calls) == 0,
        run(hooks, calls).last_video_rt == 0,
    decreases calls.len(),
{
    if calls.len() > 0 {
        let before = calls.drop_last();
        assert forall|i: int| 0 <= i < before.len() implies !binds_video(#[trigger] before[i]) by {
            assert(before[i] == calls[i]);
        }
        law_no_draw_without_video(hooks, before);
        assert(!binds_video(calls[calls.len() - 1]));
    }
}

/// A video surface is remembered until another one is bound: neither other render
/// targets nor render states nor ends of frames make the hook forget it.
pub proof fn law_video_surface_is_remembered(hooks: Hooks, call: Call)
    ensures
        match call {
            Call::SetRenderTarget { surface, .. } => after_call(hooks, call).last_video_rt == (
            if binds_video(call) {
                surface
            } else {
                hooks.last_video_rt
            }),
            _ => after_call(hooks, call).last_video_rt == hooks.last_video_rt,
        },
{
}

/// Once a video surface is known, one is known for good.
pub proof fn law_video_stays_known(hooks: Hooks, calls: Seq<Call>)
    requires
        hooks.last_video_rt != 0,
    ensures
        run(hooks, calls).last_video_rt != 0,
    decreases calls.len(),
{
    if calls.len() > 0 {
        law_video_stays_known(hooks, calls.drop_last());
    }
}

/// A render state other than the video setup state changes nothing and draws
/// nothing.
pub proof fn law_other_states_are_ignored(
    hooks: Hooks,
    device: usize,
    state: u32,
    value: u32,
    status: i32,
    drawn: i32,
)
    requires
        state != crate::d3d::VIDEO_SETUP_STATE,
    ensures
        !hooks.draws(state),
        after_call(hooks, Call::SetRenderState { device, state, value, status, drawn }) == hooks,
{
}

/// Every forced draw call is counted, until the counter comes round.
pub proof fn law_draws_are_counted(hooks: Hooks, calls: Seq<Call>)
    requires
        hooks.force_count + draws_in(hooks, calls) <= usize::MAX,
    ensures
        run(hooks, calls).force_count == hooks.force_count + draws_in(hooks, calls),
    decreases calls.len(),
{
    if calls.len() > 0 {
        law_draws_are_counted(hooks, calls.drop_last());
    }
}

/// Number of calls of `SetRenderTarget` among some calls.
pub open spec fn targets_in(calls: Seq<Call>) -> nat
    decreases calls.len(),
{
    if calls.len() == 0 {
        0
    } else {
        targets_in(calls.drop_last()) + if calls.last() is SetRenderTarget {
            1nat
        } else {
            0
        }
    }
}

/// Number of calls of `EndScene` among some calls.
pub open spec fn ends_in(calls: Seq<Call>) -> nat
    decreases calls.len(),
{
    if calls.len() == 0 {
        0
    } else {
        ends_in(calls.drop_last()) + if calls.last() is EndScene {
            1nat
        } else {
            0
        }
    }
}

/// Every call of `SetRenderTarget` is counted, until the counter comes round.
pub proof fn law_targets_are_counted(hooks: Hooks, calls: Seq<Call>)
    requires
        hooks.srt_count + targets_in(calls) <= usize::MAX,
    ensures
        run(hooks, calls).srt_count == hooks.srt_count + targets_in(calls),
    decreases calls.len(),
{
    if calls.len() > 0 {
        law_targets_are_counted(hooks, calls.drop_last());
    }
}

/// Every call of `EndScene` is counted, until the counter comes round.
pub proof fn law_frames_are_counted(hooks: Hooks, calls: Seq<Call>)
    requires
        hooks.es_count + ends_in(calls) <= usize::MAX,
    ensures
        run(hooks, calls).es_count == hooks.es_count + ends_in(calls),
    decreases calls.len(),
{
    if calls.len() > 0 {
        law_frames_are_counted(hooks, calls.drop_last());
    }
}

/// A call of a watched method changes nothing of what was set up before: what is
/// hooked, what was captured, and what was replaced.
pub proof fn law_calls_keep_the_setup(hooks: Hooks, call: Call)
    ensures
        ({
            let after = after_call(hooks, call);
            &&& after.bootstrap_started == hooks.bootstrap_started
            &&& after.device_captured == hooks.device_captured
            &&& after.orig_create_device == hooks.orig_create_device
            &&& after.real_d3d9_create == hooks.real_d3d9_create
            &&& after.forced_frames == hooks.forced_frames
            &&& forall|hook: DeviceHook| after.device_hooked(hook) == hooks.device_hooked(hook)
            &&& forall|creator: crate::d3d::Creator|
                after.creator_hooked(creator) == hooks.creator_hooked(creator)
            &&& hooks.wf() ==> after.wf()
        }),
{
}

/// Hooking a device tries each of the three methods once. Afterwards exactly those
/// are hooked that were hooked before or whose detour could be switched on, and the
/// log ends with the same line whatever failed.
pub proof fn law_install_tries_every_method(
    hooks: Hooks,
    device: usize,
    end_scene: Outcome,
    target: Outcome,
    state: Outcome,
)
    ensures
        ({
            let first = DeviceHook::EndScene;
            let second = DeviceHook::SetRenderTarget;
            let third = DeviceHook::SetRenderState;
            let after = hooks.after_install(InstallEvent::Started { device }).after_install(
                InstallEvent::Tried { device, hook: first, outcome: end_scene },
            ).after_install(
                InstallEvent::Tried { device, hook: second, outcome: target },
            ).after_install(InstallEvent::Tried { device, hook: third, outcome: state });
            let log = crate::device::tried_log(device, first, end_scene) + crate::device::tried_log(
                device,
                second,
                target,
            ) + crate::device::tried_log(device, third, state);
            &&& first.spec_following() == Some(second)
            &&& second.spec_following() == Some(third)
            &&& third.spec_following() is None
            &&& after.device_hooked(first) == (hooks.device_hooked(first) || end_scene is Enabled)
            &&& after.device_hooked(second) == (hooks.device_hooked(second) || target is Enabled)
            &&& after.device_hooked(third) == (hooks.device_hooked(third) || state is Enabled)
            &&& log.len() > 0
            &&& log.last() == (crate::message::Message::HooksInstalled { device })
        }),
{
}

} // verus!
