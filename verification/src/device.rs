//! The device: hooking its methods, and what the hooked methods do.

use vstd::prelude::*;
use crate::d3d::{
    describe_rt, looks_video, DeviceHook, DrawCall, SLOT_GET_DESC, VIDEO_SETUP_STATE,
};
use crate::hooks::{next_count, next_or_full, Hooks, Outcome, Step};
use crate::message::Message;

verus! {

/// Only the first calls of `SetRenderTarget`, this many, log what they bind.
pub const LOGGED_TARGETS: usize = 50;

/// The first ends of frames, this many, are logged.
pub const LOGGED_FRAMES: usize = 10;

/// The first forced draw calls, this many, are logged.
pub const LOGGED_DRAWS: usize = 5;

/// Later ends of frames and draw calls are logged once in this many.
pub const LOG_PERIOD: usize = 300;

/// The arguments of `CreateDevice`.
#[derive(Debug, Clone, Copy, PartialEq, Eq)]
pub struct DeviceRequest {
    pub d3d9: usize,
    pub adapter: u32,
    pub device_type: u32,
    pub hwnd: usize,
    pub behavior: u32,
    pub parameters: usize,
    pub out_device: usize,
}

/// What happened inside the detour of `CreateDevice`.
#[derive(Debug, Clone, Copy, PartialEq, Eq)]
pub enum CreateDeviceEvent {
    /// The game called it with these arguments.
    Entered { request: DeviceRequest },
    /// The real method returned this status. `out` is what the caller's pointer
    /// leads to, if it is not null.
    Returned { status: i32, out: Option<usize> },
}

/// What the detour of `CreateDevice` does next.
#[derive(Debug, Clone, Copy, PartialEq, Eq)]
pub enum CreateDeviceAction {
    /// Call the real method at this address with these arguments.
    CallOriginal { target: usize, request: DeviceRequest },
    /// Hook the methods of the device, then return the status.
    Install { device: usize, status: i32 },
    /// Return the status.
    Return { status: i32 },
}

/// What happened while the methods of a device were being hooked.
#[derive(Debug, Clone, Copy, PartialEq, Eq)]
pub enum InstallEvent {
    /// There is a new device.
    Started { device: usize },
    /// An attempt to hook a method has ended.
    Tried { device: usize, hook: DeviceHook, outcome: Outcome },
}

/// What to do next to hook the methods of a device.
#[derive(Debug, Clone, Copy, PartialEq, Eq)]
pub enum InstallAction {
    /// Try to hook the method in this slot of this device's table.
    Attach { device: usize, hook: DeviceHook, slot: usize },
    /// Every method has been tried.
    Done,
}

/// What happened inside the detour of `SetRenderTarget`.
#[derive(Debug, Clone, Copy, PartialEq, Eq)]
pub enum TargetEvent {
    /// The game called it with these arguments.
    Entered { device: usize, index: u32, surface: usize },
    /// The `n`-th call of the real method returned this status.
    Returned { n: usize, status: i32, index: u32, surface: usize },
    /// The surface, which is not null, replied to a request for its description.
    Described { n: usize, status: i32, surface: usize, reply: (i32, [u32; 8]) },
}

/// What the detour of `SetRenderTarget` does next.
#[derive(Debug, Clone, Copy, PartialEq, Eq)]
pub enum TargetAction {
    /// Call the real method with these arguments; this is call number `n`.
    CallOriginal { n: usize, device: usize, index: u32, surface: usize },
    /// Ask the surface for its description, with the method in this slot, on behalf
    /// of call number `n`, whose status is given.
    Describe { n: usize, status: i32, surface: usize, slot: usize },
    /// Return the status.
    Return { status: i32 },
}

/// What happened inside the detour of `SetRenderState`.
#[derive(Debug, Clone, Copy, PartialEq, Eq)]
pub enum StateEvent {
    /// The game called it with these arguments.
    Entered { device: usize, state: u32, value: u32 },
    /// The real method returned this status for this device and render state.
    Returned { device: usize, status: i32, state: u32 },
    /// The video was drawn, with the status `drawn`.
    Drawn { status: i32, drawn: i32 },
}

/// What the detour of `SetRenderState` does next.
#[derive(Debug, Clone, Copy, PartialEq, Eq)]
pub enum StateAction {
    /// Call the real method with these arguments.
    CallOriginal { device: usize, state: u32, value: u32 },
    /// Draw the video on this device. The status of the game's own call is given.
    Draw { device: usize, status: i32, call: DrawCall },
    /// Return the status.
    Return { status: i32 },
}

/// What happened inside the detour of `EndScene`.
#[derive(Debug, Clone, Copy, PartialEq, Eq)]
pub enum FrameEvent {
    /// The game called it with this argument.
    Entered { device: usize },
    /// The `n`-th call of the real method returned this status.
    Returned { n: usize, status: i32 },
}

/// What the detour of `EndScene` does next.
#[derive(Debug, Clone, Copy, PartialEq, Eq)]
pub enum FrameAction {
    /// Call the real method with this argument; this is call number `n`.
    CallOriginal { n: usize, device: usize },
    /// Return the status.
    Return { status: i32 },
}

/// The address behind a pointer, zero if the pointer is null.
pub open spec fn pointee(out: Option<usize>) -> usize {
    match out {
        Some(address) => address,
        None => 0,
    }
}

/// The lines that report an attempt to hook a device method.
pub open spec fn tried_log(device: usize, hook: DeviceHook, outcome: Outcome) -> Seq<Message> {
    crate::hooks::only_if(outcome is Enabled, Message::DeviceHooked { hook })
        + crate::hooks::only_if(
        hook.spec_following() is None,
        Message::HooksInstalled { device },
    )
}

/// The next attempt after one, if a method is left.
pub open spec fn after_try(device: usize, hook: DeviceHook) -> InstallAction {
    match hook.spec_following() {
        Some(next) => InstallAction::Attach { device, hook: next, slot: next.spec_slot() },
        None => InstallAction::Done,
    }
}

/// The lines that report a bound render target of this description.
pub open spec fn target_log(n: usize, surface: usize, desc: (u32, u32, u32)) -> Seq<Message> {
    let video = crate::d3d::is_video(desc.0, desc.1, desc.2);
    crate::hooks::only_if(
        n < LOGGED_TARGETS,
        Message::RenderTarget {
            n,
            surface,
            width: desc.0,
            height: desc.1,
            format: desc.2,
            video,
        },
    ) + crate::hooks::only_if(video, Message::VideoSurface { surface })
}

/// A call of `SetRenderTarget` that makes a surface the current render target.
pub open spec fn binds(status: i32, index: u32, surface: usize) -> bool {
    status == 0 && index == 0 && surface != 0
}

impl Hooks {
    /// The state after an event in the hooking of a device.
    pub open spec fn after_install(self, event: InstallEvent) -> Hooks {
        match event {
            InstallEvent::Started { .. } => self,
            InstallEvent::Tried { hook, outcome, .. } => if outcome is Enabled {
                self.with_device_hook(hook)
            } else {
                self
            },
        }
    }

    /// The state after an event in the detour of `SetRenderTarget`.
    pub open spec fn after_target(self, event: TargetEvent) -> Hooks {
        match event {
            TargetEvent::Entered { .. } => Hooks {
                srt_count: crate::hooks::succ(self.srt_count),
                ..self
            },
            TargetEvent::Returned { status, index, surface, .. } => if binds(
                status,
                index,
                surface,
            ) {
                Hooks { last_current_rt: surface, ..self }
            } else {
                self
            },
            TargetEvent::Described { surface, reply, .. } => {
                let desc = crate::d3d::described(Some(reply));
                if crate::d3d::is_video(desc.0, desc.1, desc.2) {
                    Hooks { last_video_rt: surface, ..self }
                } else {
                    self
                }
            },
        }
    }

    /// The render state is the one that starts a video frame, and a video surface
    /// is known.
    pub open spec fn counts(self, state: u32) -> bool {
        self.last_video_rt != 0 && state == VIDEO_SETUP_STATE
    }

    /// Setting the render state is the moment to draw: the first such call in this
    /// frame.
    pub open spec fn draws(self, state: u32) -> bool {
        self.counts(state) && self.rs_draw_count == 0
    }

    /// The state after an event in the detour of `SetRenderState`.
    pub open spec fn after_state(self, event: StateEvent) -> Hooks {
        match event {
            StateEvent::Entered { .. } => self,
            StateEvent::Returned { state, .. } => if self.counts(state) {
                Hooks { rs_draw_count: crate::hooks::succ_or_full(self.rs_draw_count), ..self }
            } else {
                self
            },
            StateEvent::Drawn { .. } => Hooks {
                force_count: crate::hooks::succ(self.force_count),
                ..self
            },
        }
    }

    /// The state after an event in the detour of `EndScene`.
    pub open spec fn after_frame(self, event: FrameEvent) -> Hooks {
        match event {
            FrameEvent::Entered { .. } => Hooks {
                es_count: crate::hooks::succ(self.es_count),
                rs_draw_count: 0,
                ..self
            },
            FrameEvent::Returned { .. } => self,
        }
    }

    /// The detour of `CreateDevice`. A device that was created is hooked. The
    /// status is returned as it is.
    pub fn detour_create_device(&self, event: CreateDeviceEvent) -> (res: Step<CreateDeviceAction>)
        requires
            self.orig_create_device is Some,
        ensures
            match event {
                CreateDeviceEvent::Entered { request } => {
                    &&& res.log@ == crate::hooks::silent()
                    &&& res.action == (CreateDeviceAction::CallOriginal {
                        target: self.orig_create_device->0,
                        request,
                    })
                },
                CreateDeviceEvent::Returned { status, out } => {
                    &&& res.log@ == seq![Message::DeviceCreated { status, device: pointee(out) }]
                    &&& res.action == (if status == 0 && pointee(out) != 0 {
                        CreateDeviceAction::Install { device: pointee(out), status }
                    } else {
                        CreateDeviceAction::Return { status }
                    })
                },
            },
    {
        match event {
            CreateDeviceEvent::Entered { request } => {
                let target: usize = match self.orig_create_device {
                    Some(target) => target,
                    None => 0,
                };
                Step {
                    log: Vec::new(),
                    action: CreateDeviceAction::CallOriginal { target, request },
                }
            },
            CreateDeviceEvent::Returned { status, out } => {
                let device: usize = match out {
                    Some(device) => device,
                    None => 0,
                };
                let log = vec![Message::DeviceCreated { status, device }];
                let action = if status == 0 && device != 0 {
                    CreateDeviceAction::Install { device, status }
                } else {
                    CreateDeviceAction::Return { status }
                };
                Step { log, action }
            },
        }
    }

    /// Hooks the methods of a device one after the other. A method that cannot be
    /// hooked is passed over.
    pub fn install_device_hooks(&mut self, event: InstallEvent) -> (res: Step<InstallAction>)
        ensures
            *final(self) == old(self).after_install(event),
            old(self).wf() ==> final(self).wf(),
            match event {
                InstallEvent::Started { device } => {
                    &&& res.log@ == crate::hooks::silent()
                    &&& res.action == (InstallAction::Attach {
                        device,
                        hook: DeviceHook::EndScene,
                        slot: DeviceHook::EndScene.spec_slot(),
                    })
                },
                InstallEvent::Tried { device, hook, outcome } => {
                    &&& res.log@ == tried_log(device, hook, outcome)
                    &&& res.action == after_try(device, hook)
                },
            },
    {
        match event {
            InstallEvent::Started { device } => {
                let hook = DeviceHook::EndScene;
                Step {
                    log: Vec::new(),
                    action: InstallAction::Attach { device, hook, slot: hook.slot() },
                }
            },
            InstallEvent::Tried { device, hook, outcome } => {
                let mut log: Vec<Message> = Vec::new();
                if outcome == Outcome::Enabled {
                    self.set_device_hook(hook);
                    log.push(Message::DeviceHooked { hook });
                }
                let action = match hook.following() {
                    Some(next) => InstallAction::Attach { device, hook: next, slot: next.slot() },
                    None => {
                        log.push(Message::HooksInstalled { device });
                        InstallAction::Done
                    },
                };
                assert(log@ =~= tried_log(device, hook, outcome));
                Step { log, action }
            },
        }
    }

    /// The detour of `SetRenderTarget`. It remembers the current render target and
    /// the last video surface. The status is returned as it is.
    pub fn detour_set_render_target(&mut self, event: TargetEvent) -> (res: Step<TargetAction>)
        requires
            old(self).device_hooked(DeviceHook::SetRenderTarget),
            event matches TargetEvent::Described { surface, .. } ==> surface != 0,
        ensures
            *final(self) == old(self).after_target(event),
            old(self).wf() ==> final(self).wf(),
            match event {
                TargetEvent::Entered { device, index, surface } => {
                    &&& res.log@ == crate::hooks::silent()
                    &&& res.action == (TargetAction::CallOriginal {
                        n: old(self).srt_count,
                        device,
                        index,
                        surface,
                    })
                },
                TargetEvent::Returned { n, status, index, surface } => {
                    &&& res.log@ == crate::hooks::silent()
                    &&& res.action == (if binds(status, index, surface) {
                        TargetAction::Describe { n, status, surface, slot: SLOT_GET_DESC }
                    } else {
                        TargetAction::Return { status }
                    })
                },
                TargetEvent::Described { n, status, surface, reply } => {
                    &&& res.log@ == target_log(n, surface, crate::d3d::described(Some(reply)))
                    &&& res.action == (TargetAction::Return { status })
                },
            },
    {
        match event {
            TargetEvent::Entered { device, index, surface } => {
                let n: usize = self.srt_count;
                self.srt_count = next_count(n);
                Step {
                    log: Vec::new(),
                    action: TargetAction::CallOriginal { n, device, index, surface },
                }
            },
            TargetEvent::Returned { n, status, index, surface } => {
                let action = if status == 0 && index == 0 && surface != 0 {
                    self.last_current_rt = surface;
                    TargetAction::Describe { n, status, surface, slot: SLOT_GET_DESC }
                } else {
                    TargetAction::Return { status }
                };
                Step { log: Vec::new(), action }
            },
            TargetEvent::Described { n, status, surface, reply } => {
                let (width, height, format): (u32, u32, u32) = describe_rt(Some(reply));
                let video = looks_video(width, height, format);
                let mut log: Vec<Message> = Vec::new();
                if n < LOGGED_TARGETS {
                    log.push(
                        Message::RenderTarget { n, surface, width, height, format, video },
                    );
                }
                if video {
                    self.last_video_rt = surface;
                    log.push(Message::VideoSurface { surface });
                }
                assert(log@ =~= target_log(n, surface, (width, height, format)));
                Step { log, action: TargetAction::Return { status } }
            },
        }
    }

    /// The detour of `SetRenderState`. The first time in a frame that the video
    /// setup state is set while a video surface is known, the video is drawn; every
    /// later time in the frame is ignored. The status of the game's own call is returned as it is.
    pub fn detour_set_rs(&mut self, event: StateEvent) -> (res: Step<StateAction>)
        requires
            old(self).device_hooked(DeviceHook::SetRenderState),
        ensures
            *final(self) == old(self).after_state(event),
            old(self).wf() ==> final(self).wf(),
            match event {
                StateEvent::Entered { device, state, value } => {
                    &&& res.log@ == crate::hooks::silent()
                    &&& res.action == (StateAction::CallOriginal { device, state, value })
                },
                StateEvent::Returned { device, status, state } => {
                    &&& res.log@ == crate::hooks::silent()
                    &&& old(self).draws(state) ==> (res.action matches StateAction::Draw {
                        device: d,
                        status: s,
                        call,
                    } && d == device && s == status && call.shows_video())
                    &&& !old(self).draws(state) ==> res.action == (StateAction::Return { status })
                },
                StateEvent::Drawn { status, drawn } => {
                    &&& res.log@ == crate::hooks::only_if(
                        crate::hooks::sampled(old(self).force_count, LOGGED_DRAWS, LOG_PERIOD),
                        Message::ForcedDraw { n: old(self).force_count, status: drawn },
                    )
                    &&& res.action == (StateAction::Return { status })
                },
            },
    {
        match event {
            StateEvent::Entered { device, state, value } => Step {
                log: Vec::new(),
                action: StateAction::CallOriginal { device, state, value },
            },
            StateEvent::Returned { device, status, state } => {
                let mut draw = false;
                if self.last_video_rt != 0 && state == VIDEO_SETUP_STATE {
                    let count: usize = self.rs_draw_count;
                    self.rs_draw_count = next_or_full(count);
                    draw = count == 0;
                }
                let action = if draw {
                    StateAction::Draw { device, status, call: DrawCall::video() }
                } else {
                    StateAction::Return { status }
                };
                Step { log: Vec::new(), action }
            },
            StateEvent::Drawn { status, drawn } => {
                let n: usize = self.force_count;
                self.force_count = next_count(n);
                let mut log: Vec<Message> = Vec::new();
                if n < LOGGED_DRAWS || n % LOG_PERIOD == 0 {
                    log.push(Message::ForcedDraw { n, status: drawn });
                }
                Step { log, action: StateAction::Return { status } }
            },
        }
    }

    /// The detour of `EndScene`. It starts a new frame before the real method runs.
    /// The status is returned as it is.
    pub fn detour_end_scene(&mut self, event: FrameEvent) -> (res: Step<FrameAction>)
        requires
            old(self).device_hooked(DeviceHook::EndScene),
        ensures
            *final(self) == old(self).after_frame(event),
            old(self).wf() ==> final(self).wf(),
            match event {
                FrameEvent::Entered { device } => {
                    &&& res.log@ == crate::hooks::silent()
                    &&& res.action == (FrameAction::CallOriginal {
                        n: old(self).es_count,
                        device,
                    })
                },
                FrameEvent::Returned { n, status } => {
                    &&& res.log@ == crate::hooks::only_if(
                        crate::hooks::sampled(n, LOGGED_FRAMES, LOG_PERIOD),
                        Message::FrameEnded { n },
                    )
                    &&& res.action == (FrameAction::Return { status })
                },
            },
    {
        match event {
            FrameEvent::Entered { device } => {
                let n: usize = self.es_count;
                self.es_count = next_count(n);
                self.rs_draw_count = 0;
                Step { log: Vec::new(), action: FrameAction::CallOriginal { n, device } }
            },
            FrameEvent::Returned { n, status } => {
                let mut log: Vec<Message> = Vec::new();
                if n < LOGGED_FRAMES || n % LOG_PERIOD == 0 {
                    log.push(Message::FrameEnded { n });
                }
                Step { log, action: FrameAction::Return { status } }
            },
        }
    }
}

} // verus!
