//! The worker thread: it hooks the functions of `d3d9.dll` that create a root
//! object, and then reports at regular intervals.

use vstd::prelude::*;
use crate::d3d::Creator;
use crate::hooks::{Hooks, Outcome, Step};
use crate::message::Message;

verus! {

/// The library whose functions are hooked.
pub const LIBRARY: &'static str = "d3d9.dll";

/// Number of naps that the worker takes before it ends.
pub const TICKS: u32 = 120000;

/// The worker reports once in this many ticks.
pub const REPORT_PERIOD: u32 = 1200;

/// Length of a nap.
pub const NAP_MILLIS: u32 = 1;

/// What happened in the worker thread.
#[derive(Debug, PartialEq, Eq)]
pub enum WorkerEvent {
    /// The thread runs.
    Started,
    /// The library was loaded, or could not be.
    Preloaded { loaded: Option<usize> },
    /// The library is in the process.
    Found { module: usize },
    /// The library is not in the process, for the reason given.
    NotFound { error: String },
    /// A function was looked up.
    Resolved { module: usize, creator: Creator, address: Option<usize> },
    /// An attempt to hook a function has ended.
    Tried { module: usize, creator: Creator, outcome: Outcome },
    /// The nap of this tick is over.
    Slept { tick: u32 },
}

/// What the worker thread does next.
#[derive(Debug, Clone, Copy, PartialEq, Eq)]
pub enum WorkerAction {
    /// Load [`LIBRARY`].
    Preload,
    /// Look for [`LIBRARY`] in the process.
    FindModule,
    /// Look a function up.
    FindSymbol { module: usize, creator: Creator },
    /// Try to hook the function at this address.
    Attach { module: usize, creator: Creator, target: usize },
    /// Take a nap.
    Sleep { tick: u32, millis: u32 },
    /// End the thread.
    Exit,
}

/// What the worker does at a tick: it naps until all ticks are over.
pub open spec fn nap(tick: int) -> WorkerAction {
    if tick < TICKS {
        WorkerAction::Sleep { tick: tick as u32, millis: NAP_MILLIS }
    } else {
        WorkerAction::Exit
    }
}

/// What the worker does once it is done with a function: the other one is looked
/// up, and after that the ticks begin.
pub open spec fn after_creator(module: usize, creator: Creator) -> WorkerAction {
    match creator {
        Creator::Direct3DCreate9 => WorkerAction::FindSymbol {
            module,
            creator: Creator::Direct3DCreate9Ex,
        },
        Creator::Direct3DCreate9Ex => nap(0),
    }
}

/// A function that was looked up was found.
pub open spec fn found(address: Option<usize>) -> bool {
    address is Some && address->0 != 0
}

/// What the worker does after an event. It depends on nothing else.
pub open spec fn worker_action(event: WorkerEvent) -> WorkerAction {
    match event {
        WorkerEvent::Started => WorkerAction::Preload,
        WorkerEvent::Preloaded { .. } => WorkerAction::FindModule,
        WorkerEvent::Found { module } => WorkerAction::FindSymbol {
            module,
            creator: Creator::Direct3DCreate9,
        },
        WorkerEvent::NotFound { .. } => WorkerAction::Exit,
        WorkerEvent::Resolved { module, creator, address } => if found(address) {
            WorkerAction::Attach { module, creator, target: address->0 }
        } else {
            after_creator(module, creator)
        },
        WorkerEvent::Tried { module, creator, .. } => after_creator(module, creator),
        WorkerEvent::Slept { tick } => nap(tick + 1),
    }
}

/// The report at a tick, if one is due.
pub open spec fn report(hooks: Hooks, tick: int) -> Seq<Message> {
    crate::hooks::only_if(
        tick < TICKS && tick % (REPORT_PERIOD as int) == 0,
        Message::Heartbeat {
            tick: tick as u32,
            captured: hooks.device_captured,
            surface: hooks.last_video_rt,
            forced: hooks.forced_frames,
        },
    )
}

/// The report at the first tick, where an event leads to it.
pub open spec fn first_report(hooks: Hooks, creator: Creator) -> Seq<Message> {
    match creator {
        Creator::Direct3DCreate9 => crate::hooks::silent(),
        Creator::Direct3DCreate9Ex => report(hooks, 0),
    }
}

/// The lines that the worker logs after an event.
pub open spec fn worker_log(hooks: Hooks, event: WorkerEvent) -> Seq<Message> {
    match event {
        WorkerEvent::Started => seq![Message::Banner],
        WorkerEvent::Preloaded { loaded: Some(module) } => seq![Message::Preloaded { module }],
        WorkerEvent::Preloaded { loaded: None } => crate::hooks::silent(),
        WorkerEvent::Found { module } => seq![Message::Module { module }],
        WorkerEvent::NotFound { error } => seq![Message::NoModule { error }],
        WorkerEvent::Resolved { creator, address, .. } => if found(address) {
            crate::hooks::silent()
        } else {
            first_report(hooks, creator)
        },
        WorkerEvent::Tried { creator, outcome, .. } => crate::hooks::only_if(
            outcome is Enabled,
            Message::CreatorHooked { creator },
        ) + first_report(hooks, creator),
        WorkerEvent::Slept { tick } => report(hooks, tick + 1),
    }
}

impl Hooks {
    /// The state after an event in the worker thread.
    pub open spec fn after_worker(self, event: WorkerEvent) -> Hooks {
        match event {
            WorkerEvent::Resolved { creator: Creator::Direct3DCreate9, address, .. } => if found(
                address,
            ) {
                Hooks { real_d3d9_create: address->0, ..self }
            } else {
                self
            },
            WorkerEvent::Tried { creator, outcome: Outcome::Enabled, .. } => self.with_creator(
                creator,
            ),
            _ => self,
        }
    }

    /// The worker thread. It ends at once if the library is not in the process. A
    /// function that is missing or cannot be hooked is passed over.
    pub fn worker_thread_body(&mut self, event: WorkerEvent) -> (res: Step<WorkerAction>)
        requires
            event matches WorkerEvent::Tried { creator: Creator::Direct3DCreate9, .. } ==> old(
                self,
            ).real_d3d9_create != 0,
            event matches WorkerEvent::Slept { tick } ==> tick < TICKS,
        ensures
            *final(self) == old(self).after_worker(event),
            old(self).wf() ==> final(self).wf(),
            res.log@ == worker_log(*old(self), event),
            res.action == worker_action(event),
    {
        match event {
            WorkerEvent::Started => Step {
                log: vec![Message::Banner],
                action: WorkerAction::Preload,
            },
            WorkerEvent::Preloaded { loaded } => {
                let mut log: Vec<Message> = Vec::new();
                if let Some(module) = loaded {
                    log.push(Message::Preloaded { module });
                }
                Step { log, action: WorkerAction::FindModule }
            },
            WorkerEvent::Found { module } => Step {
                log: vec![Message::Module { module }],
                action: WorkerAction::FindSymbol { module, creator: Creator::Direct3DCreate9 },
            },
            WorkerEvent::NotFound { error } => Step {
                log: vec![Message::NoModule { error }],
                action: WorkerAction::Exit,
            },
            WorkerEvent::Resolved { module, creator, address } => {
                if let Some(target) = address {
                    if target != 0 {
                        if creator == Creator::Direct3DCreate9 {
                            self.real_d3d9_create = target;
                        }
                        return Step {
                            log: Vec::new(),
                            action: WorkerAction::Attach { module, creator, target },
                        };
                    }
                }
                self.creator_done(module, creator, Vec::new())
            },
            WorkerEvent::Tried { module, creator, outcome } => {
                let mut log: Vec<Message> = Vec::new();
                if outcome == Outcome::Enabled {
                    self.set_creator(creator);
                    log.push(Message::CreatorHooked { creator });
                }
                self.creator_done(module, creator, log)
            },
            WorkerEvent::Slept { tick } => self.tick(tick + 1, Vec::new()),
        }
    }

    /// Goes on after a function has been dealt with.
    fn creator_done(&self, module: usize, creator: Creator, log: Vec<Message>) -> (res: Step<
        WorkerAction,
    >)
        ensures
            res.log@ == log@ + first_report(*self, creator),
            res.action == after_creator(module, creator),
    {
        match creator {
            Creator::Direct3DCreate9 => {
                assert(log@ + first_report(*self, creator) =~= log@);
                Step {
                    log,
                    action: WorkerAction::FindSymbol {
                        module,
                        creator: Creator::Direct3DCreate9Ex,
                    },
                }
            },
            Creator::Direct3DCreate9Ex => self.tick(0, log),
        }
    }

    /// Reports if a report is due, and naps until all ticks are over.
    fn tick(&self, tick: u32, log: Vec<Message>) -> (res: Step<WorkerAction>)
        ensures
            res.log@ == log@ + report(*self, tick as int),
            res.action == nap(tick as int),
    {
        let mut log = log;
        let ghost before = log@;
        if tick < TICKS {
            if tick % REPORT_PERIOD == 0 {
                log.push(
                    Message::Heartbeat {
                        tick,
                        captured: self.device_captured,
                        surface: self.last_video_rt,
                        forced: self.forced_frames,
                    },
                );
            }
            assert(log@ =~= before + report(*self, tick as int));
            Step { log, action: WorkerAction::Sleep { tick, millis: NAP_MILLIS } }
        } else {
            assert(log@ =~= before + report(*self, tick as int));
            Step { log, action: WorkerAction::Exit }
        }
    }
}

} // verus!
