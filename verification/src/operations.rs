//! What every operation does, told by the values that go in and come out. Each law
//! speaks of whatever a call can return, for all inputs, in terms of fields, numbers
//! and addresses only.

use vstd::prelude::*;
use crate::capture::{alloc_exec, CaptureAction, CreateEvent, CreateExEvent};
use crate::d3d::{describe_rt, looks_video, quad, Creator, DeviceHook, DrawCall, Vertex};
use crate::device::{
    CreateDeviceAction, CreateDeviceEvent, DeviceRequest, FrameAction, FrameEvent, InstallAction,
    InstallEvent, StateAction, StateEvent, TargetAction, TargetEvent,
};
use crate::hooks::{Attach, DllMain, Hooks, Outcome, Step};
use crate::message::Message;
use crate::worker::{WorkerAction, WorkerEvent};

verus! {

// The device's render states.

/// While a video surface is known, the first 0xd1 of a frame draws the video on the
/// device that was called, whatever else the hook remembers, and is counted.
pub proof fn law_first_setup_draws(
    hooks: &mut Hooks,
    device: usize,
    status: i32,
    step: Step<StateAction>,
)
    requires
        call_ensures(
            Hooks::detour_set_rs,
            (hooks, StateEvent::Returned { device, status, state: 0xd1 }),
            step,
        ),
        old(hooks).last_video_rt != 0,
        old(hooks).rs_draw_count == 0,
    ensures
        *final(hooks) == (Hooks { rs_draw_count: 1, ..*old(hooks) }),
        step.log@.len() == 0,
        step.action matches StateAction::Draw { device: d, status: s, call } && d == device && s
            == status && call.slot == 83 && call.primitive == 5 && call.count == 2 && call.stride
            == 24 && call.vertices@ == seq![
            Vertex { x: 0, y: 66, z: 0, rhw: 1, u: 0, v: 0 },
            Vertex { x: 640, y: 66, z: 0, rhw: 1, u: 1, v: 0 },
            Vertex { x: 0, y: 414, z: 0, rhw: 1, u: 0, v: 1 },
            Vertex { x: 640, y: 414, z: 0, rhw: 1, u: 1, v: 1 },
        ],
{
}

/// A later 0xd1 of the frame is only counted, as far as the counter reaches.
pub proof fn law_later_setup_is_counted(
    hooks: &mut Hooks,
    device: usize,
    status: i32,
    step: Step<StateAction>,
)
    requires
        call_ensures(
            Hooks::detour_set_rs,
            (hooks, StateEvent::Returned { device, status, state: 0xd1 }),
            step,
        ),
        old(hooks).last_video_rt != 0,
        old(hooks).rs_draw_count != 0,
    ensures
        final(hooks).rs_draw_count != 0,
        old(hooks).rs_draw_count < usize::MAX ==> final(hooks).rs_draw_count == old(
            hooks,
        ).rs_draw_count + 1,
        old(hooks).rs_draw_count == usize::MAX ==> final(hooks).rs_draw_count == usize::MAX,
        *final(hooks) == (Hooks { rs_draw_count: final(hooks).rs_draw_count, ..*old(hooks) }),
        step.log@.len() == 0,
        step.action == (StateAction::Return { status }),
{
}

/// Any other render state, and 0xd1 while no video surface is known, leaves
/// everything as it was, and only the status goes back.
pub proof fn law_other_states_pass_through(
    hooks: &mut Hooks,
    device: usize,
    status: i32,
    state: u32,
    step: Step<StateAction>,
)
    requires
        call_ensures(
            Hooks::detour_set_rs,
            (hooks, StateEvent::Returned { device, status, state }),
            step,
        ),
        state != 0xd1 || old(hooks).last_video_rt == 0,
    ensures
        *final(hooks) == *old(hooks),
        step.log@.len() == 0,
        step.action == (StateAction::Return { status }),
{
}

/// The game's own call of `SetRenderState` is passed on with its arguments.
pub proof fn law_set_rs_forwards(
    hooks: &mut Hooks,
    device: usize,
    state: u32,
    value: u32,
    step: Step<StateAction>,
)
    requires
        call_ensures(
            Hooks::detour_set_rs,
            (hooks, StateEvent::Entered { device, state, value }),
            step,
        ),
    ensures
        *final(hooks) == *old(hooks),
        step.log@.len() == 0,
        step.action == (StateAction::CallOriginal { device, state, value }),
{
}

/// A forced draw is counted. The first five and every three hundredth are logged
/// with their number and their own status; the status of the game's call goes back.
pub proof fn law_forced_draw_is_counted(
    hooks: &mut Hooks,
    status: i32,
    drawn: i32,
    step: Step<StateAction>,
)
    requires
        call_ensures(Hooks::detour_set_rs, (hooks, StateEvent::Drawn { status, drawn }), step),
    ensures
        old(hooks).force_count < usize::MAX ==> final(hooks).force_count == old(hooks).force_count
            + 1,
        old(hooks).force_count == usize::MAX ==> final(hooks).force_count == 0,
        *final(hooks) == (Hooks { force_count: final(hooks).force_count, ..*old(hooks) }),
        (old(hooks).force_count < 5 || old(hooks).force_count as int % 300 == 0) ==> step.log@
            == seq![Message::ForcedDraw { n: old(hooks).force_count, status: drawn }],
        !(old(hooks).force_count < 5 || old(hooks).force_count as int % 300 == 0)
            ==> step.log@.len() == 0,
        step.action == (StateAction::Return { status }),
{
}

// The end of a frame.

/// `EndScene` clears the frame's counter and counts the frame before the real method
/// runs, on the same device.
pub proof fn law_end_scene_starts_a_frame(
    hooks: &mut Hooks,
    device: usize,
    step: Step<FrameAction>,
)
    requires
        call_ensures(Hooks::detour_end_scene, (hooks, FrameEvent::Entered { device }), step),
    ensures
        old(hooks).es_count < usize::MAX ==> final(hooks).es_count == old(hooks).es_count + 1,
        old(hooks).es_count == usize::MAX ==> final(hooks).es_count == 0,
        *final(hooks) == (Hooks {
            rs_draw_count: 0,
            es_count: final(hooks).es_count,
            ..*old(hooks)
        }),
        step.log@.len() == 0,
        step.action == (FrameAction::CallOriginal { n: old(hooks).es_count, device }),
{
}

/// The status of `EndScene` goes back. The first ten frames and every three
/// hundredth are logged.
pub proof fn law_end_scene_returns(
    hooks: &mut Hooks,
    n: usize,
    status: i32,
    step: Step<FrameAction>,
)
    requires
        call_ensures(Hooks::detour_end_scene, (hooks, FrameEvent::Returned { n, status }), step),
    ensures
        *final(hooks) == *old(hooks),
        (n < 10 || n as int % 300 == 0) ==> step.log@ == seq![Message::FrameEnded { n }],
        !(n < 10 || n as int % 300 == 0) ==> step.log@.len() == 0,
        step.action == (FrameAction::Return { status }),
{
}

// Render targets.

/// The game's own call of `SetRenderTarget` is numbered and passed on with its
/// arguments.
pub proof fn law_set_render_target_forwards(
    hooks: &mut Hooks,
    device: usize,
    index: u32,
    surface: usize,
    step: Step<TargetAction>,
)
    requires
        call_ensures(
            Hooks::detour_set_render_target,
            (hooks, TargetEvent::Entered { device, index, surface }),
            step,
        ),
    ensures
        old(hooks).srt_count < usize::MAX ==> final(hooks).srt_count == old(hooks).srt_count + 1,
        old(hooks).srt_count == usize::MAX ==> final(hooks).srt_count == 0,
        *final(hooks) == (Hooks { srt_count: final(hooks).srt_count, ..*old(hooks) }),
        step.log@.len() == 0,
        step.action == (TargetAction::CallOriginal {
            n: old(hooks).srt_count,
            device,
            index,
            surface,
        }),
{
}

/// A surface that was bound as the first render target becomes the current one and
/// is asked for its description.
pub proof fn law_bound_surface_is_described(
    hooks: &mut Hooks,
    n: usize,
    surface: usize,
    step: Step<TargetAction>,
)
    requires
        call_ensures(
            Hooks::detour_set_render_target,
            (hooks, TargetEvent::Returned { n, status: 0, index: 0, surface }),
            step,
        ),
        surface != 0,
    ensures
        *final(hooks) == (Hooks { last_current_rt: surface, ..*old(hooks) }),
        step.log@.len() == 0,
        step.action == (TargetAction::Describe { n, status: 0, surface, slot: 12 }),
{
}

/// A failed call, another target and a null surface leave everything as it was.
pub proof fn law_unbound_surface_is_ignored(
    hooks: &mut Hooks,
    n: usize,
    status: i32,
    index: u32,
    surface: usize,
    step: Step<TargetAction>,
)
    requires
        call_ensures(
            Hooks::detour_set_render_target,
            (hooks, TargetEvent::Returned { n, status, index, surface }),
            step,
        ),
        status != 0 || index != 0 || surface == 0,
    ensures
        *final(hooks) == *old(hooks),
        step.log@.len() == 0,
        step.action == (TargetAction::Return { status }),
{
}

/// A surface whose description was obtained is remembered as the video surface
/// exactly if words 6 and 7 hold 640 and 348 or 768 and 512, or word 0 one of the two
/// video formats. The other words do not matter, nor does what is remembered.
pub proof fn law_video_is_detected(
    hooks: &mut Hooks,
    n: usize,
    status: i32,
    surface: usize,
    desc: [u32; 8],
    step: Step<TargetAction>,
)
    requires
        call_ensures(
            Hooks::detour_set_render_target,
            (hooks, TargetEvent::Described { n, status, surface, reply: (0, desc) }),
            step,
        ),
    ensures
        desc@[6] == 640 && desc@[7] == 348 ==> final(hooks).last_video_rt == surface,
        desc@[6] == 768 && desc@[7] == 512 ==> final(hooks).last_video_rt == surface,
        desc@[0] == 0x59565955 ==> final(hooks).last_video_rt == surface,
        desc@[0] == 0x32595559 ==> final(hooks).last_video_rt == surface,
        !(desc@[6] == 640 && desc@[7] == 348) && !(desc@[6] == 768 && desc@[7] == 512) && desc@[0]
            != 0x59565955 && desc@[0] != 0x32595559 ==> *final(hooks) == *old(hooks),
        *final(hooks) == (Hooks { last_video_rt: final(hooks).last_video_rt, ..*old(hooks) }),
        step.action == (TargetAction::Return { status }),
{
}

/// What is logged of a described surface: its words 6, 7 and 0 while fewer than
/// fifty calls came before, and a line of its own if it is a video surface.
pub proof fn law_described_surface_is_logged(
    hooks: &mut Hooks,
    n: usize,
    status: i32,
    surface: usize,
    desc: [u32; 8],
    video: bool,
    step: Step<TargetAction>,
)
    requires
        call_ensures(
            Hooks::detour_set_render_target,
            (hooks, TargetEvent::Described { n, status, surface, reply: (0, desc) }),
            step,
        ),
        video <==> (desc@[6] == 640 && desc@[7] == 348) || (desc@[6] == 768 && desc@[7] == 512)
            || desc@[0] == 0x59565955 || desc@[0] == 0x32595559,
    ensures
        n < 50 && video ==> step.log@ == seq![
            Message::RenderTarget {
                n,
                surface,
                width: desc@[6],
                height: desc@[7],
                format: desc@[0],
                video: true,
            },
            Message::VideoSurface { surface },
        ],
        n < 50 && !video ==> step.log@ == seq![
            Message::RenderTarget {
                n,
                surface,
                width: desc@[6],
                height: desc@[7],
                format: desc@[0],
                video: false,
            },
        ],
        n >= 50 && video ==> step.log@ == seq![Message::VideoSurface { surface }],
        n >= 50 && !video ==> step.log@.len() == 0,
{
}

/// A surface that does not describe itself is no video surface, whatever words are
/// left in the reply, and is logged with zeros.
pub proof fn law_undescribed_surface_is_no_video(
    hooks: &mut Hooks,
    n: usize,
    status: i32,
    surface: usize,
    failure: i32,
    desc: [u32; 8],
    step: Step<TargetAction>,
)
    requires
        call_ensures(
            Hooks::detour_set_render_target,
            (hooks, TargetEvent::Described { n, status, surface, reply: (failure, desc) }),
            step,
        ),
        failure != 0,
    ensures
        *final(hooks) == *old(hooks),
        n < 50 ==> step.log@ == seq![
            Message::RenderTarget { n, surface, width: 0, height: 0, format: 0, video: false },
        ],
        n >= 50 ==> step.log@.len() == 0,
        step.action == (TargetAction::Return { status }),
{
}

/// Width, height and format are words 6, 7 and 0 of a successful reply, whatever the
/// other words hold, and zero without one.
pub proof fn law_description_is_read(
    reply: Option<(i32, [u32; 8])>,
    status: i32,
    desc: [u32; 8],
    res: (u32, u32, u32),
)
    requires
        call_ensures(describe_rt, (reply,), res),
    ensures
        reply == Some((0i32, desc)) ==> res.0 == desc@[6] && res.1 == desc@[7] && res.2 == desc@[0],
        reply == Some((status, desc)) && status != 0 ==> res.0 == 0 && res.1 == 0 && res.2 == 0,
        reply is None ==> res.0 == 0 && res.1 == 0 && res.2 == 0,
{
}

/// The sizes and formats of video surfaces, and no others.
pub proof fn law_video_sizes_and_formats(width: u32, height: u32, format: u32, res: bool)
    requires
        call_ensures(looks_video, (width, height, format), res),
    ensures
        width == 640 && height == 348 ==> res,
        width == 768 && height == 512 ==> res,
        format == 0x59565955 ==> res,
        format == 0x32595559 ==> res,
        res ==> (width == 640 && height == 348) || (width == 768 && height == 512) || format
            == 0x59565955 || format == 0x32595559,
{
}

/// The quad's corners: the four combinations of the window's sides with the lines 66
/// and 414, each with the matching corner of the texture.
pub proof fn law_quad_corners(res: [Vertex; 4], i: int)
    requires
        call_ensures(quad, (), res),
        0 <= i < 4,
    ensures
        res@[i].x == 640 * (i % 2),
        res@[i].y == 66 + 348 * (i / 2),
        res@[i].z == 0,
        res@[i].rhw == 1,
        res@[i].u == i % 2,
        res@[i].v == i / 2,
{
    assert(i == 0 || i == 1 || i == 2 || i == 3);
}

/// The draw call that shows a video: two triangles in a strip, with vertices of 24
/// bytes that are the quad's corners.
pub proof fn law_video_call(res: DrawCall, corners: [Vertex; 4])
    requires
        call_ensures(DrawCall::video, (), res),
        call_ensures(quad, (), corners),
    ensures
        res.slot == 83,
        res.primitive == 5,
        res.count == 2,
        res.stride == 24,
        res.vertices@ == corners@,
{
}

// The device itself.

/// `CreateDevice` is passed on to the remembered method with its arguments.
pub proof fn law_create_device_forwards(
    hooks: Hooks,
    target: usize,
    request: DeviceRequest,
    step: Step<CreateDeviceAction>,
)
    requires
        call_ensures(
            Hooks::detour_create_device,
            (&hooks, CreateDeviceEvent::Entered { request }),
            step,
        ),
        hooks.orig_create_device == Some(target),
    ensures
        step.log@.len() == 0,
        step.action == (CreateDeviceAction::CallOriginal { target, request }),
{
}

/// A device that was created is hooked at its own address, which is logged.
pub proof fn law_created_device_is_hooked(
    hooks: Hooks,
    device: usize,
    step: Step<CreateDeviceAction>,
)
    requires
        call_ensures(
            Hooks::detour_create_device,
            (&hooks, CreateDeviceEvent::Returned { status: 0, out: Some(device) }),
            step,
        ),
        device != 0,
    ensures
        step.log@ == seq![Message::DeviceCreated { status: 0, device }],
        step.action == (CreateDeviceAction::Install { device, status: 0 }),
{
}

/// Without a device, or with any other status, nothing is hooked; the status goes
/// back, and what the pointer leads to is logged all the same.
pub proof fn law_missing_device_is_not_hooked(
    hooks: Hooks,
    status: i32,
    out: Option<usize>,
    device: usize,
    step: Step<CreateDeviceAction>,
)
    requires
        call_ensures(
            Hooks::detour_create_device,
            (&hooks, CreateDeviceEvent::Returned { status, out }),
            step,
        ),
        status != 0 || out is None || out == Some(0usize),
    ensures
        out == Some(device) ==> step.log@ == seq![Message::DeviceCreated { status, device }],
        out is None ==> step.log@ == seq![Message::DeviceCreated { status, device: 0 }],
        step.action == (CreateDeviceAction::Return { status }),
{
}

/// Hooking a device begins with `EndScene`, in slot 42 of its table.
pub proof fn law_install_begins(hooks: &mut Hooks, device: usize, step: Step<InstallAction>)
    requires
        call_ensures(
            Hooks::install_device_hooks,
            (hooks, InstallEvent::Started { device }),
            step,
        ),
    ensures
        *final(hooks) == *old(hooks),
        step.log@.len() == 0,
        step.action == (InstallAction::Attach { device, hook: DeviceHook::EndScene, slot: 42 }),
{
}

/// `EndScene` is recorded if its detour is on, and `SetRenderTarget` in slot 37 of
/// the same device follows.
pub proof fn law_install_end_scene(
    hooks: &mut Hooks,
    device: usize,
    outcome: Outcome,
    step: Step<InstallAction>,
)
    requires
        call_ensures(
            Hooks::install_device_hooks,
            (hooks, InstallEvent::Tried { device, hook: DeviceHook::EndScene, outcome }),
            step,
        ),
    ensures
        outcome is Enabled ==> *final(hooks) == (Hooks { end_scene_hooked: true, ..*old(hooks) }),
        outcome is Enabled ==> step.log@ == seq![
            Message::DeviceHooked { hook: DeviceHook::EndScene },
        ],
        !(outcome is Enabled) ==> *final(hooks) == *old(hooks) && step.log@.len() == 0,
        step.action == (InstallAction::Attach {
            device,
            hook: DeviceHook::SetRenderTarget,
            slot: 37,
        }),
{
}

/// `SetRenderTarget` is recorded if its detour is on, and `SetRenderState` in slot 57
/// of the same device follows.
pub proof fn law_install_set_render_target(
    hooks: &mut Hooks,
    device: usize,
    outcome: Outcome,
    step: Step<InstallAction>,
)
    requires
        call_ensures(
            Hooks::install_device_hooks,
            (hooks, InstallEvent::Tried { device, hook: DeviceHook::SetRenderTarget, outcome }),
            step,
        ),
    ensures
        outcome is Enabled ==> *final(hooks) == (Hooks {
            set_render_target_hooked: true,
            ..*old(hooks)
        }),
        outcome is Enabled ==> step.log@ == seq![
            Message::DeviceHooked { hook: DeviceHook::SetRenderTarget },
        ],
        !(outcome is Enabled) ==> *final(hooks) == *old(hooks) && step.log@.len() == 0,
        step.action == (InstallAction::Attach {
            device,
            hook: DeviceHook::SetRenderState,
            slot: 57,
        }),
{
}

/// `SetRenderState` is recorded if its detour is on; then the device is done with,
/// and reported by its address.
pub proof fn law_install_set_render_state(
    hooks: &mut Hooks,
    device: usize,
    outcome: Outcome,
    step: Step<InstallAction>,
)
    requires
        call_ensures(
            Hooks::install_device_hooks,
            (hooks, InstallEvent::Tried { device, hook: DeviceHook::SetRenderState, outcome }),
            step,
        ),
    ensures
        outcome is Enabled ==> *final(hooks) == (Hooks {
            set_render_state_hooked: true,
            ..*old(hooks)
        }),
        outcome is Enabled ==> step.log@ == seq![
            Message::DeviceHooked { hook: DeviceHook::SetRenderState },
            Message::HooksInstalled { device },
        ],
        !(outcome is Enabled) ==> *final(hooks) == *old(hooks) && step.log@ == seq![
            Message::HooksInstalled { device },
        ],
        step.action == InstallAction::Done,
{
}

/// The slots of the watched methods, and the order in which they are hooked.
pub proof fn law_device_slots(hook: DeviceHook, slot: usize, next: Option<DeviceHook>)
    requires
        call_ensures(DeviceHook::slot, (hook,), slot),
        call_ensures(DeviceHook::following, (hook,), next),
    ensures
        hook is EndScene ==> slot == 42 && next == Some(DeviceHook::SetRenderTarget),
        hook is SetRenderTarget ==> slot == 37 && next == Some(DeviceHook::SetRenderState),
        hook is SetRenderState ==> slot == 57 && next is None,
{
}

// The root object.

/// `Direct3DCreate9` is passed on with its argument.
pub proof fn law_create_forwards(
    hooks: &mut Hooks,
    sdk: u32,
    step: Step<CaptureAction<u32, usize>>,
)
    requires
        call_ensures(Hooks::hook_d3d9_create, (hooks, CreateEvent::Entered { sdk }), step),
    ensures
        *final(hooks) == *old(hooks),
        step.log@.len() == 0,
        step.action == (CaptureAction::<u32, usize>::CallOriginal { arguments: sdk }),
{
}

/// Until an object is captured, every object that is not null is to be captured: room
/// for 32 addresses is asked for. Otherwise the object goes back. It is logged either
/// way.
pub proof fn law_created_object_is_captured(
    hooks: &mut Hooks,
    object: usize,
    step: Step<CaptureAction<u32, usize>>,
)
    requires
        call_ensures(Hooks::hook_d3d9_create, (hooks, CreateEvent::Returned { object }), step),
    ensures
        *final(hooks) == *old(hooks),
        step.log@ == seq![Message::RootCreated { object }],
        object != 0 && !old(hooks).device_captured ==> (
        step.action matches CaptureAction::Allocate { result, object: o, bytes } && result == object
            && o == object && 8 * bytes == 32 * usize::BITS),
        object == 0 || old(hooks).device_captured ==> step.action == (CaptureAction::<
            u32,
            usize,
        >::Return { result: object }),
{
}

/// With memory at hand, the object's own `CreateDevice` (slot 16) is remembered, and
/// the object gets a table that differs from its own in that slot alone. Without, the
/// object goes back and nothing is remembered.
pub proof fn law_captured_table_is_copied(
    hooks: &mut Hooks,
    object: usize,
    block: usize,
    table: [usize; 32],
    detour: usize,
    step: Step<CaptureAction<u32, usize>>,
)
    requires
        call_ensures(
            Hooks::hook_d3d9_create,
            (hooks, CreateEvent::Allocated { object, block, table, detour }),
            step,
        ),
    ensures
        step.log@.len() == 0,
        block != 0 ==> *final(hooks) == (Hooks {
            orig_create_device: Some(table@[16]),
            ..*old(hooks)
        }),
        block != 0 ==> (step.action matches CaptureAction::Exchange {
            result,
            object: o,
            block: b,
            table: copy,
            protect,
        } && result == object && o == object && b == block && protect == 4 && copy@[16] == detour
            && forall|i: int| 0 <= i < 32 && i != 16 ==> copy@[i] == table@[i]),
        block == 0 ==> *final(hooks) == *old(hooks) && step.action == (CaptureAction::<
            u32,
            usize,
        >::Return { result: object }),
{
}

/// Once the object uses its table, it counts as captured and goes back to the game.
pub proof fn law_exchanged_object_is_returned(
    hooks: &mut Hooks,
    object: usize,
    step: Step<CaptureAction<u32, usize>>,
)
    requires
        call_ensures(Hooks::hook_d3d9_create, (hooks, CreateEvent::Exchanged { object }), step),
    ensures
        *final(hooks) == (Hooks { device_captured: true, ..*old(hooks) }),
        step.log@ == seq![Message::TableCopied],
        step.action == (CaptureAction::<u32, usize>::Return { result: object }),
{
}

/// `Direct3DCreate9Ex` is passed on with its arguments.
pub proof fn law_create_ex_forwards(
    hooks: &mut Hooks,
    sdk: u32,
    pointer: usize,
    step: Step<CaptureAction<(u32, usize), i32>>,
)
    requires
        call_ensures(
            Hooks::hook_d3d9_create_ex,
            (hooks, CreateExEvent::Entered { sdk, pointer }),
            step,
        ),
    ensures
        *final(hooks) == *old(hooks),
        step.log@.len() == 0,
        step.action == (CaptureAction::<(u32, usize), i32>::CallOriginal {
            arguments: (sdk, pointer),
        }),
{
}

/// Until an object is captured, every object that is not null and comes with a status
/// of zero or more is to be captured. In all other cases the status goes back.
pub proof fn law_created_ex_object_is_captured(
    hooks: &mut Hooks,
    status: i32,
    out: Option<usize>,
    object: usize,
    step: Step<CaptureAction<(u32, usize), i32>>,
)
    requires
        call_ensures(
            Hooks::hook_d3d9_create_ex,
            (hooks, CreateExEvent::Returned { status, out }),
            step,
        ),
    ensures
        *final(hooks) == *old(hooks),
        step.log@.len() == 0,
        status >= 0 && out == Some(object) && object != 0 && !old(hooks).device_captured ==> (
        step.action matches CaptureAction::Allocate { result, object: o, bytes } && result == status
            && o == object && 8 * bytes == 32 * usize::BITS),
        status < 0 || out is None || out == Some(0usize) || old(hooks).device_captured
            ==> step.action == (CaptureAction::<(u32, usize), i32>::Return { result: status }),
{
}

/// As for `Direct3DCreate9`, with the status in place of the object.
pub proof fn law_captured_ex_table_is_copied(
    hooks: &mut Hooks,
    status: i32,
    object: usize,
    block: usize,
    table: [usize; 32],
    detour: usize,
    step: Step<CaptureAction<(u32, usize), i32>>,
)
    requires
        call_ensures(
            Hooks::hook_d3d9_create_ex,
            (hooks, CreateExEvent::Allocated { status, object, block, table, detour }),
            step,
        ),
    ensures
        step.log@.len() == 0,
        block != 0 ==> *final(hooks) == (Hooks {
            orig_create_device: Some(table@[16]),
            ..*old(hooks)
        }),
        block != 0 ==> (step.action matches CaptureAction::Exchange {
            result,
            object: o,
            block: b,
            table: copy,
            protect,
        } && result == status && o == object && b == block && protect == 4 && copy@[16] == detour
            && forall|i: int| 0 <= i < 32 && i != 16 ==> copy@[i] == table@[i]),
        block == 0 ==> *final(hooks) == *old(hooks) && step.action == (CaptureAction::<
            (u32, usize),
            i32,
        >::Return { result: status }),
{
}

/// Once the object uses its table, it counts as captured, and the status goes back.
pub proof fn law_exchanged_ex_object_is_returned(
    hooks: &mut Hooks,
    status: i32,
    step: Step<CaptureAction<(u32, usize), i32>>,
)
    requires
        call_ensures(
            Hooks::hook_d3d9_create_ex,
            (hooks, CreateExEvent::Exchanged { status }),
            step,
        ),
    ensures
        *final(hooks) == (Hooks { device_captured: true, ..*old(hooks) }),
        step.log@.len() == 0,
        step.action == (CaptureAction::<(u32, usize), i32>::Return { result: status }),
{
}

/// Memory is where it is said to be, unless the address is null.
pub proof fn law_allocation(block: usize, res: Option<usize>)
    requires
        call_ensures(alloc_exec, (block,), res),
    ensures
        block != 0 ==> res == Some(block),
        block == 0 ==> res is None,
{
}

// The worker thread.

/// The worker starts with its banner and loads the library. Then it looks for it,
/// whether or not it could be loaded; only a loaded library is logged.
pub proof fn law_worker_starts(
    hooks: &mut Hooks,
    event: WorkerEvent,
    module: usize,
    step: Step<WorkerAction>,
)
    requires
        call_ensures(Hooks::worker_thread_body, (hooks, event), step),
        event is Started || event is Preloaded,
    ensures
        *final(hooks) == *old(hooks),
        event is Started ==> step.log@ == seq![Message::Banner] && step.action
            == WorkerAction::Preload,
        event is Preloaded ==> step.action == WorkerAction::FindModule,
        event == (WorkerEvent::Preloaded { loaded: Some(module) }) ==> step.log@ == seq![
            Message::Preloaded { module },
        ],
        event == (WorkerEvent::Preloaded { loaded: None }) ==> step.log@.len() == 0,
{
}

/// A library that was found is logged by its address, and `Direct3DCreate9` is looked
/// up in it.
pub proof fn law_worker_finds_library(
    hooks: &mut Hooks,
    module: usize,
    step: Step<WorkerAction>,
)
    requires
        call_ensures(Hooks::worker_thread_body, (hooks, WorkerEvent::Found { module }), step),
    ensures
        *final(hooks) == *old(hooks),
        step.log@ == seq![Message::Module { module }],
        step.action == (WorkerAction::FindSymbol { module, creator: Creator::Direct3DCreate9 }),
{
}

/// Without the library the reason is logged and the worker ends.
pub proof fn law_worker_misses_library(
    hooks: &mut Hooks,
    error: String,
    step: Step<WorkerAction>,
)
    requires
        call_ensures(Hooks::worker_thread_body, (hooks, WorkerEvent::NotFound { error }), step),
    ensures
        *final(hooks) == *old(hooks),
        step.log@ == seq![Message::NoModule { error }],
        step.action == WorkerAction::Exit,
{
}

/// A function that was found is hooked at its own address. That of `Direct3DCreate9`
/// is remembered.
pub proof fn law_resolved_function_is_hooked(
    hooks: &mut Hooks,
    module: usize,
    creator: Creator,
    target: usize,
    step: Step<WorkerAction>,
)
    requires
        call_ensures(
            Hooks::worker_thread_body,
            (hooks, WorkerEvent::Resolved { module, creator, address: Some(target) }),
            step,
        ),
        target != 0,
    ensures
        creator is Direct3DCreate9 ==> *final(hooks) == (Hooks {
            real_d3d9_create: target,
            ..*old(hooks)
        }),
        creator is Direct3DCreate9Ex ==> *final(hooks) == *old(hooks),
        step.log@.len() == 0,
        step.action == (WorkerAction::Attach { module, creator, target }),
{
}

/// A missing function is passed over: after the first the second is looked up in the
/// same library, and after the second the ticks begin, with a report.
pub proof fn law_missing_function_is_passed_over(
    hooks: &mut Hooks,
    module: usize,
    creator: Creator,
    address: Option<usize>,
    step: Step<WorkerAction>,
)
    requires
        call_ensures(
            Hooks::worker_thread_body,
            (hooks, WorkerEvent::Resolved { module, creator, address }),
            step,
        ),
        address is None || address == Some(0usize),
    ensures
        *final(hooks) == *old(hooks),
        creator is Direct3DCreate9 ==> step.log@.len() == 0 && step.action == (
        WorkerAction::FindSymbol { module, creator: Creator::Direct3DCreate9Ex }),
        creator is Direct3DCreate9Ex ==> step.log@ == seq![
            Message::Heartbeat {
                tick: 0,
                captured: old(hooks).device_captured,
                surface: old(hooks).last_video_rt,
                forced: old(hooks).forced_frames,
            },
        ] && step.action == (WorkerAction::Sleep { tick: 0, millis: 1 }),
{
}

/// `Direct3DCreate9` is recorded and logged if its detour is on. The second function
/// is looked up in the same library in any case.
pub proof fn law_first_function_tried(
    hooks: &mut Hooks,
    module: usize,
    outcome: Outcome,
    step: Step<WorkerAction>,
)
    requires
        call_ensures(
            Hooks::worker_thread_body,
            (
                hooks,
                WorkerEvent::Tried { module, creator: Creator::Direct3DCreate9, outcome },
            ),
            step,
        ),
    ensures
        outcome is Enabled ==> *final(hooks) == (Hooks { create_hooked: true, ..*old(hooks) }),
        outcome is Enabled ==> step.log@ == seq![
            Message::CreatorHooked { creator: Creator::Direct3DCreate9 },
        ],
        !(outcome is Enabled) ==> *final(hooks) == *old(hooks) && step.log@.len() == 0,
        step.action == (WorkerAction::FindSymbol { module, creator: Creator::Direct3DCreate9Ex }),
{
}

/// `Direct3DCreate9Ex` is recorded and logged if its detour is on. The ticks begin in
/// any case, with a report.
pub proof fn law_second_function_tried(
    hooks: &mut Hooks,
    module: usize,
    outcome: Outcome,
    step: Step<WorkerAction>,
)
    requires
        call_ensures(
            Hooks::worker_thread_body,
            (
                hooks,
                WorkerEvent::Tried { module, creator: Creator::Direct3DCreate9Ex, outcome },
            ),
            step,
        ),
    ensures
        ({
            let report = Message::Heartbeat {
                tick: 0,
                captured: old(hooks).device_captured,
                surface: old(hooks).last_video_rt,
                forced: old(hooks).forced_frames,
            };
            &&& outcome is Enabled ==> *final(hooks) == (Hooks {
                create_ex_hooked: true,
                ..*old(hooks)
            }) && step.log@ == seq![
                Message::CreatorHooked { creator: Creator::Direct3DCreate9Ex },
                report,
            ]
            &&& !(outcome is Enabled) ==> *final(hooks) == *old(hooks) && step.log@ == seq![report]
        }),
        step.action == (WorkerAction::Sleep { tick: 0, millis: 1 }),
{
}

/// After each nap the next tick follows, with a nap of one millisecond and, at every
/// twelve hundredth tick, a report of what is remembered then. After the last nap,
/// that of tick 119999, the worker ends.
pub proof fn law_ticks_follow_each_other(
    hooks: &mut Hooks,
    tick: u32,
    next: u32,
    step: Step<WorkerAction>,
)
    requires
        call_ensures(Hooks::worker_thread_body, (hooks, WorkerEvent::Slept { tick }), step),
        tick < 120000,
        next == tick + 1,
    ensures
        *final(hooks) == *old(hooks),
        next < 120000 ==> step.action == (WorkerAction::Sleep { tick: next, millis: 1 }),
        next < 120000 && next as int % 1200 == 0 ==> step.log@ == seq![
            Message::Heartbeat {
                tick: next,
                captured: old(hooks).device_captured,
                surface: old(hooks).last_video_rt,
                forced: old(hooks).forced_frames,
            },
        ],
        next as int % 1200 != 0 ==> step.log@.len() == 0,
        next == 120000 ==> step.action == WorkerAction::Exit && step.log@.len() == 0,
{
}

/// The names under which the two functions are looked up.
pub proof fn law_symbols(creator: Creator, res: &'static str)
    requires
        call_ensures(Creator::symbol, (creator,), res),
    ensures
        creator is Direct3DCreate9 ==> res@ == "Direct3DCreate9"@,
        creator is Direct3DCreate9Ex ==> res@ == "Direct3DCreate9Ex"@,
{
}

// The start.

/// Before anything has happened, nothing is started, captured, hooked, remembered or
/// counted.
pub proof fn law_nothing_at_first(res: Hooks)
    requires
        call_ensures(Hooks::new, (), res),
    ensures
        !res.bootstrap_started && !res.device_captured && res.orig_create_device is None,
        res.real_d3d9_create == 0 && res.last_video_rt == 0 && res.last_current_rt == 0,
        res.rs_draw_count == 0 && res.srt_count == 0 && res.es_count == 0 && res.force_count == 0,
        res.forced_frames == 0,
        !res.create_hooked && !res.create_ex_hooked && !res.end_scene_hooked,
        !res.set_render_target_hooked && !res.set_render_state_hooked,
{
}

/// Loading into a process (reason 1) turns thread notices off every time and starts
/// the worker the first time. No other reason does anything. Success is always
/// reported.
pub proof fn law_entry_point(hooks: &mut Hooks, reason: u32, res: Attach)
    requires
        call_ensures(DllMain, (hooks, reason), res),
    ensures
        res.result == 1,
        reason == 1 ==> res.disable_thread_calls && res.start_worker == !old(
            hooks,
        ).bootstrap_started && *final(hooks) == (Hooks { bootstrap_started: true, ..*old(hooks) }),
        reason != 1 ==> !res.disable_thread_calls && !res.start_worker && *final(hooks) == *old(
            hooks,
        ),
{
}

/// The worker is granted once: the first request is, and one that follows is not.
pub proof fn law_bootstrap_is_granted_once(first: &mut Hooks, second: &mut Hooks, a: bool, b: bool)
    requires
        call_ensures(Hooks::bootstrap_once, (first,), a),
        call_ensures(Hooks::bootstrap_once, (second,), b),
        *old(second) == *final(first),
    ensures
        a == !old(first).bootstrap_started,
        !b,
        *final(first) == (Hooks { bootstrap_started: true, ..*old(first) }),
        *final(second) == *final(first),
{
}

/// What is asked about is told: each question about a hook reads its own record.
pub proof fn law_questions_are_answered(
    hooks: Hooks,
    hook: DeviceHook,
    creator: Creator,
    device_hooked: bool,
    creator_hooked: bool,
)
    requires
        call_ensures(Hooks::is_device_hooked, (&hooks, hook), device_hooked),
        call_ensures(Hooks::is_creator_hooked, (&hooks, creator), creator_hooked),
    ensures
        hook is EndScene ==> device_hooked == hooks.end_scene_hooked,
        hook is SetRenderTarget ==> device_hooked == hooks.set_render_target_hooked,
        hook is SetRenderState ==> device_hooked == hooks.set_render_state_hooked,
        creator is Direct3DCreate9 ==> creator_hooked == hooks.create_hooked,
        creator is Direct3DCreate9Ex ==> creator_hooked == hooks.create_ex_hooked,
{
}

} // verus!
