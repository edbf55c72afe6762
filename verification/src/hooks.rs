//! What the hook remembers between calls, and how it starts.

use vstd::prelude::*;
use crate::d3d::{Creator, DeviceHook};
use crate::message::Message;

verus! {

/// Everything that the hook remembers. Addresses are plain numbers, zero standing
/// for null. The counters of calls and draws wrap around; the counter of a frame
/// stands still at its largest value.
#[derive(Debug, Clone, Copy, PartialEq, Eq)]
pub struct Hooks {
    /// The worker thread has been started.
    pub bootstrap_started: bool,
    /// A root object has been given its own method table.
    pub device_captured: bool,
    /// The address of the real `CreateDevice`, once it has been replaced.
    pub orig_create_device: Option<usize>,
    /// The address of the real `Direct3DCreate9`.
    pub real_d3d9_create: usize,
    /// The video surface that was bound last.
    pub last_video_rt: usize,
    /// The surface that was bound last.
    pub last_current_rt: usize,
    /// How often the video setup state was set in this frame while a video surface
    /// was known, or the largest value if that is less.
    pub rs_draw_count: usize,
    /// Calls of `SetRenderTarget`.
    pub srt_count: usize,
    /// Calls of `EndScene`.
    pub es_count: usize,
    /// Draw calls issued by the hook.
    pub force_count: usize,
    /// Reported by the worker, and never counted up.
    pub forced_frames: usize,
    /// `Direct3DCreate9` is hooked.
    pub create_hooked: bool,
    /// `Direct3DCreate9Ex` is hooked.
    pub create_ex_hooked: bool,
    /// `EndScene` is hooked.
    pub end_scene_hooked: bool,
    /// `SetRenderTarget` is hooked.
    pub set_render_target_hooked: bool,
    /// `SetRenderState` is hooked.
    pub set_render_state_hooked: bool,
}

/// Lines for the log, to be written first, and what to do then.
#[derive(Debug, PartialEq, Eq)]
pub struct Step<A> {
    pub log: Vec<Message>,
    pub action: A,
}

/// How an attempt to hook a function ended.
#[derive(Debug, Clone, Copy, PartialEq, Eq, Structural)]
pub enum Outcome {
    /// No detour could be made.
    Refused,
    /// A detour was made but could not be switched on.
    NotEnabled,
    /// The detour is on.
    Enabled,
}

/// The successor of a counter that wraps around.
pub open spec fn succ(n: usize) -> usize {
    if n == usize::MAX {
        0
    } else {
        (n + 1) as usize
    }
}

/// The successor of a counter that stands still at its largest value.
pub open spec fn succ_or_full(n: usize) -> usize {
    if n == usize::MAX {
        n
    } else {
        (n + 1) as usize
    }
}

/// The log holds nothing.
pub open spec fn silent() -> Seq<Message> {
    Seq::empty()
}

/// The message if it is to be kept, else nothing.
pub open spec fn only_if(keep: bool, message: Message) -> Seq<Message> {
    if keep {
        seq![message]
    } else {
        silent()
    }
}

/// A sampled event is logged the first `first` times and then once in `period`.
pub open spec fn sampled(n: usize, first: usize, period: usize) -> bool {
    n < first || n % period == 0
}

impl Hooks {
    /// Nothing has happened yet.
    pub open spec fn initial() -> Hooks {
        Hooks {
            bootstrap_started: false,
            device_captured: false,
            orig_create_device: None,
            real_d3d9_create: 0,
            last_video_rt: 0,
            last_current_rt: 0,
            rs_draw_count: 0,
            srt_count: 0,
            es_count: 0,
            force_count: 0,
            forced_frames: 0,
            create_hooked: false,
            create_ex_hooked: false,
            end_scene_hooked: false,
            set_render_target_hooked: false,
            set_render_state_hooked: false,
        }
    }

    /// What holds at all times: whoever captured a root object knows the real
    /// `CreateDevice`, the real `Direct3DCreate9` is known where it is hooked, and
    /// no frames have been counted as forced.
    pub open spec fn wf(self) -> bool {
        &&& self.device_captured ==> self.orig_create_device is Some
        &&& self.create_hooked ==> self.real_d3d9_create != 0
        &&& self.forced_frames == 0
    }

    /// The device method is hooked.
    pub open spec fn device_hooked(self, hook: DeviceHook) -> bool {
        match hook {
            DeviceHook::EndScene => self.end_scene_hooked,
            DeviceHook::SetRenderTarget => self.set_render_target_hooked,
            DeviceHook::SetRenderState => self.set_render_state_hooked,
        }
    }

    /// The function of `d3d9.dll` is hooked.
    pub open spec fn creator_hooked(self, creator: Creator) -> bool {
        match creator {
            Creator::Direct3DCreate9 => self.create_hooked,
            Creator::Direct3DCreate9Ex => self.create_ex_hooked,
        }
    }

    /// The state once the device method is hooked.
    pub open spec fn with_device_hook(self, hook: DeviceHook) -> Hooks {
        match hook {
            DeviceHook::EndScene => Hooks { end_scene_hooked: true, ..self },
            DeviceHook::SetRenderTarget => Hooks { set_render_target_hooked: true, ..self },
            DeviceHook::SetRenderState => Hooks { set_render_state_hooked: true, ..self },
        }
    }

    /// The state once the function of `d3d9.dll` is hooked.
    pub open spec fn with_creator(self, creator: Creator) -> Hooks {
        match creator {
            Creator::Direct3DCreate9 => Hooks { create_hooked: true, ..self },
            Creator::Direct3DCreate9Ex => Hooks { create_ex_hooked: true, ..self },
        }
    }

    /// The state before anything has happened.
    pub fn new() -> (res: Hooks)
        ensures
            res == Hooks::initial(),
            res.wf(),
    {
        Hooks {
            bootstrap_started: false,
            device_captured: false,
            orig_create_device: None,
            real_d3d9_create: 0,
            last_video_rt: 0,
            last_current_rt: 0,
            rs_draw_count: 0,
            srt_count: 0,
            es_count: 0,
            force_count: 0,
            forced_frames: 0,
            create_hooked: false,
            create_ex_hooked: false,
            end_scene_hooked: false,
            set_render_target_hooked: false,
            set_render_state_hooked: false,
        }
    }

    /// Tells whether the device method is hooked.
    pub fn is_device_hooked(&self, hook: DeviceHook) -> (res: bool)
        ensures
            res == self.device_hooked(hook),
    {
        match hook {
            DeviceHook::EndScene => self.end_scene_hooked,
            DeviceHook::SetRenderTarget => self.set_render_target_hooked,
            DeviceHook::SetRenderState => self.set_render_state_hooked,
        }
    }

    /// Tells whether the function of `d3d9.dll` is hooked.
    pub fn is_creator_hooked(&self, creator: Creator) -> (res: bool)
        ensures
            res == self.creator_hooked(creator),
    {
        match creator {
            Creator::Direct3DCreate9 => self.create_hooked,
            Creator::Direct3DCreate9Ex => self.create_ex_hooked,
        }
    }

    /// Records that the device method is hooked.
    pub(crate) fn set_device_hook(&mut self, hook: DeviceHook)
        ensures
            *final(self) == old(self).with_device_hook(hook),
    {
        match hook {
            DeviceHook::EndScene => {
                self.end_scene_hooked = true;
            },
            DeviceHook::SetRenderTarget => {
                self.set_render_target_hooked = true;
            },
            DeviceHook::SetRenderState => {
                self.set_render_state_hooked = true;
            },
        }
    }

    /// Records that the function of `d3d9.dll` is hooked.
    pub(crate) fn set_creator(&mut self, creator: Creator)
        ensures
            *final(self) == old(self).with_creator(creator),
    {
        match creator {
            Creator::Direct3DCreate9 => {
                self.create_hooked = true;
            },
            Creator::Direct3DCreate9Ex => {
                self.create_ex_hooked = true;
            },
        }
    }

    /// Asks to start the worker thread. Only the first request is granted.
    pub fn bootstrap_once(&mut self) -> (start: bool)
        ensures
            start == !old(self).bootstrap_started,
            *final(self) == (Hooks { bootstrap_started: true, ..*old(self) }),
            old(self).wf() ==> final(self).wf(),
    {
        let start = !self.bootstrap_started;
        self.bootstrap_started = true;
        start
    }
}

/// The successor of a counter that wraps around.
pub(crate) fn next_count(n: usize) -> (res: usize)
    ensures
        res == succ(n),
{
    n.wrapping_add(1)
}

/// The successor of a counter that stands still at its largest value.
pub(crate) fn next_or_full(n: usize) -> (res: usize)
    ensures
        res == succ_or_full(n),
{
    if n == usize::MAX {
        n
    } else {
        n + 1
    }
}

/// The state after the entry point was called for this reason.
pub open spec fn after_attach(hooks: Hooks, reason: u32) -> Hooks {
    Hooks { bootstrap_started: hooks.bootstrap_started || reason == PROCESS_ATTACH, ..hooks }
}

/// The entry point starts the worker thread when it is called for this reason.
pub open spec fn attach_starts(hooks: Hooks, reason: u32) -> bool {
    reason == PROCESS_ATTACH && !hooks.bootstrap_started
}

/// The state after the entry point was called for each of these reasons in turn.
pub open spec fn after_attaches(hooks: Hooks, reasons: Seq<u32>) -> Hooks
    decreases reasons.len(),
{
    if reasons.len() == 0 {
        hooks
    } else {
        after_attach(after_attaches(hooks, reasons.drop_last()), reasons.last())
    }
}

/// How often that starts a worker thread.
pub open spec fn starts_in(hooks: Hooks, reasons: Seq<u32>) -> nat
    decreases reasons.len(),
{
    if reasons.len() == 0 {
        0
    } else {
        starts_in(hooks, reasons.drop_last()) + if attach_starts(
            after_attaches(hooks, reasons.drop_last()),
            reasons.last(),
        ) {
            1nat
        } else {
            0
        }
    }
}

/// The worker thread is started once if the library is ever loaded into the
/// process, however often that is reported, and else never.
pub proof fn law_one_worker(hooks: Hooks, reasons: Seq<u32>)
    requires
        !hooks.bootstrap_started,
    ensures
        starts_in(hooks, reasons) == if reasons.contains(PROCESS_ATTACH) {
            1nat
        } else {
            0
        },
        after_attaches(hooks, reasons).bootstrap_started == reasons.contains(PROCESS_ATTACH),
    decreases reasons.len(),
{
    if reasons.len() > 0 {
        let before = reasons.drop_last();
        law_one_worker(hooks, before);
        if before.contains(PROCESS_ATTACH) {
            let i = choose|i: int| 0 <= i < before.len() && before[i] == PROCESS_ATTACH;
            assert(reasons[i] == PROCESS_ATTACH);
        }
        if reasons.contains(PROCESS_ATTACH) && reasons.last() != PROCESS_ATTACH {
            let i = choose|i: int| 0 <= i < reasons.len() && reasons[i] == PROCESS_ATTACH;
            assert(before[i] == PROCESS_ATTACH);
        }
        if reasons.last() == PROCESS_ATTACH {
            assert(reasons[reasons.len() - 1] == PROCESS_ATTACH);
        }
    }
}

/// The value of `reason` when the library is loaded into the process.
pub const PROCESS_ATTACH: u32 = 1;

/// What the entry point of the library does, in this order.
#[derive(Debug, Clone, Copy, PartialEq, Eq, Structural)]
pub struct Attach {
    /// Ask not to be told about threads.
    pub disable_thread_calls: bool,
    /// Start the worker thread.
    pub start_worker: bool,
    /// Return this: one stands for success.
    pub result: i32,
}

/// The entry point of the library. It always reports success.
#[allow(non_snake_case)]
pub fn DllMain(hooks: &mut Hooks, reason: u32) -> (res: Attach)
    ensures
        res.result == 1,
        res.disable_thread_calls == (reason == PROCESS_ATTACH),
        res.start_worker == attach_starts(*old(hooks), reason),
        *final(hooks) == after_attach(*old(hooks), reason),
        old(hooks).wf() ==> final(hooks).wf(),
{
    if reason == PROCESS_ATTACH {
        let start_worker = hooks.bootstrap_once();
        Attach { disable_thread_calls: true, start_worker, result: 1 }
    } else {
        Attach { disable_thread_calls: false, start_worker: false, result: 1 }
    }
}

} // verus!
