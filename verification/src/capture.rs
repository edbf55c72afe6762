//! Taking over the root object: the first one that the game creates gets a copy of
//! its method table in which `CreateDevice` leads to the hook.

use vstd::prelude::*;
use crate::d3d::{Creator, SLOT_BYTES, SLOT_CREATE_DEVICE, TABLE_SLOTS};
use crate::hooks::{Hooks, Step};
use crate::message::Message;

verus! {

/// What happened inside the detour of `Direct3DCreate9`.
#[derive(Debug, Clone, Copy, PartialEq, Eq)]
pub enum CreateEvent {
    /// The game called it with this argument.
    Entered { sdk: u32 },
    /// The real function returned this object.
    Returned { object: usize },
    /// Memory was asked for, and `block` came back. `table` is the object's method
    /// table, and `detour` the address of the hook's `CreateDevice`.
    Allocated { object: usize, block: usize, table: [usize; 32], detour: usize },
    /// The object uses the copied table.
    Exchanged { object: usize },
}

/// What happened inside the detour of `Direct3DCreate9Ex`.
#[derive(Debug, Clone, Copy, PartialEq, Eq)]
pub enum CreateExEvent {
    /// The game called it with these arguments.
    Entered { sdk: u32, pointer: usize },
    /// The real function returned this status. `out` is what the caller's pointer
    /// leads to, if it is not null.
    Returned { status: i32, out: Option<usize> },
    /// As in [`CreateEvent`]; `object` is what the caller's pointer leads to.
    Allocated { status: i32, object: usize, block: usize, table: [usize; 32], detour: usize },
    /// As in [`CreateEvent`].
    Exchanged { status: i32 },
}

/// What a detour that captures a root object does next. `A` stands for the arguments
/// of the real function and `R` for its result, which is returned in the end.
#[derive(Debug, PartialEq, Eq)]
pub enum CaptureAction<A, R> {
    /// Call the real function with these arguments.
    CallOriginal { arguments: A },
    /// Return this to the game.
    Return { result: R },
    /// Read the method table of this object, and ask for executable memory.
    Allocate { result: R, object: usize, bytes: usize },
    /// Write the table to the memory at `block`, and make the object use it: lift
    /// the page protection of `protect` bytes at the object, write the address
    /// `block` there, and restore the protection.
    Exchange {
        result: R,
        object: usize,
        block: usize,
        table: [usize; 32],
        protect: usize,
    },
}

/// A table as the copy holds it: the same methods, but for `CreateDevice`.
pub open spec fn patched(table: Seq<usize>, detour: usize) -> Seq<usize> {
    table.update(SLOT_CREATE_DEVICE as int, detour)
}

/// Bytes of a copied table: one address per slot.
pub open spec fn table_bytes() -> int {
    TABLE_SLOTS * (usize::BITS / 8)
}

/// The address of allocated memory, or nothing if the allocation failed.
pub fn alloc_exec(block: usize) -> (res: Option<usize>)
    ensures
        res == (if block == 0 {
            None
        } else {
            Some(block)
        }),
{
    if block == 0 {
        None
    } else {
        Some(block)
    }
}

impl Hooks {
    /// The state after an allocation: once memory is there, the real
    /// `CreateDevice` is remembered.
    pub open spec fn after_allocated(self, block: usize, table: Seq<usize>) -> Hooks {
        if block == 0 {
            self
        } else {
            Hooks { orig_create_device: Some(table[SLOT_CREATE_DEVICE as int]), ..self }
        }
    }

    /// The state after a root object has been captured.
    pub open spec fn after_exchanged(self) -> Hooks {
        Hooks { device_captured: true, ..self }
    }

    /// The state after an event in the detour of `Direct3DCreate9`.
    pub open spec fn after_create(self, event: CreateEvent) -> Hooks {
        match event {
            CreateEvent::Entered { .. } => self,
            CreateEvent::Returned { .. } => self,
            CreateEvent::Allocated { block, table, .. } => self.after_allocated(block, table@),
            CreateEvent::Exchanged { .. } => self.after_exchanged(),
        }
    }

    /// The state after an event in the detour of `Direct3DCreate9Ex`.
    pub open spec fn after_create_ex(self, event: CreateExEvent) -> Hooks {
        match event {
            CreateExEvent::Entered { .. } => self,
            CreateExEvent::Returned { .. } => self,
            CreateExEvent::Allocated { block, table, .. } => self.after_allocated(block, table@),
            CreateExEvent::Exchanged { .. } => self.after_exchanged(),
        }
    }

    /// The object that `Direct3DCreate9` returned is to be captured.
    pub open spec fn captures(self, object: usize) -> bool {
        object != 0 && !self.device_captured
    }

    /// The object that `Direct3DCreate9Ex` left behind the caller's pointer is to
    /// be captured.
    pub open spec fn captures_ex(self, status: i32, out: Option<usize>) -> bool {
        status >= 0 && out is Some && self.captures(out->0)
    }

    /// The copy of a table, if there is memory for it. The real `CreateDevice` is
    /// remembered.
    fn copy_table(&mut self, block: usize, table: [usize; 32], detour: usize) -> (res: Option<
        [usize; 32],
    >)
        ensures
            *final(self) == old(self).after_allocated(block, table@),
            match res {
                Some(copy) => block != 0 && copy@ == patched(table@, detour),
                None => block == 0,
            },
    {
        match alloc_exec(block) {
            Some(_) => {
                let mut copy = table;
                self.orig_create_device = Some(table[SLOT_CREATE_DEVICE]);
                copy[SLOT_CREATE_DEVICE] = detour;
                Some(copy)
            },
            None => None,
        }
    }

    /// The detour of `Direct3DCreate9`. A null object, and every object after the
    /// first captured one, is returned as it is.
    pub fn hook_d3d9_create(&mut self, event: CreateEvent) -> (res: Step<
        CaptureAction<u32, usize>,
    >)
        requires
            old(self).creator_hooked(Creator::Direct3DCreate9),
            event is Exchanged ==> old(self).orig_create_device is Some,
        ensures
            *final(self) == old(self).after_create(event),
            old(self).wf() ==> final(self).wf(),
            match event {
                CreateEvent::Entered { sdk } => {
                    &&& res.log@ == crate::hooks::silent()
                    &&& res.action == (CaptureAction::<u32, usize>::CallOriginal { arguments: sdk })
                },
                CreateEvent::Returned { object } => {
                    &&& res.log@ == seq![Message::RootCreated { object }]
                    &&& old(self).captures(object) ==> (res.action matches CaptureAction::Allocate {
                        result,
                        object: o,
                        bytes,
                    } && result == object && o == object && bytes == table_bytes())
                    &&& !old(self).captures(object) ==> res.action == (CaptureAction::<u32, usize>::Return {
                        result: object,
                    })
                },
                CreateEvent::Allocated { object, block, table, detour } => {
                    &&& res.log@ == crate::hooks::silent()
                    &&& block != 0 ==> (res.action matches CaptureAction::Exchange {
                        result,
                        object: o,
                        block: b,
                        table: copy,
                        protect,
                    } && result == object && o == object && b == block && copy@ == patched(table@, detour)
                        && protect == SLOT_BYTES)
                    &&& block == 0 ==> res.action == (CaptureAction::<u32, usize>::Return { result: object })
                },
                CreateEvent::Exchanged { object } => {
                    &&& res.log@ == seq![Message::TableCopied]
                    &&& res.action == (CaptureAction::<u32, usize>::Return { result: object })
                },
            },
    {
        match event {
            CreateEvent::Entered { sdk } => Step {
                log: Vec::new(),
                action: CaptureAction::CallOriginal { arguments: sdk },
            },
            CreateEvent::Returned { object } => {
                let log = vec![Message::RootCreated { object }];
                if object == 0 || self.device_captured {
                    return Step { log, action: CaptureAction::Return { result: object } };
                }
                Step {
                    log,
                    action: CaptureAction::Allocate { result: object, object, bytes: table_size() },
                }
            },
            CreateEvent::Allocated { object, block, table, detour } => {
                let action = match self.copy_table(block, table, detour) {
                    Some(copy) => CaptureAction::Exchange {
                        result: object,
                        object,
                        block,
                        table: copy,
                        protect: SLOT_BYTES,
                    },
                    None => CaptureAction::Return { result: object },
                };
                Step { log: Vec::new(), action }
            },
            CreateEvent::Exchanged { object } => {
                self.device_captured = true;
                Step {
                    log: vec![Message::TableCopied],
                    action: CaptureAction::Return { result: object },
                }
            },
        }
    }

    /// The detour of `Direct3DCreate9Ex`. The status is returned as it is, whether
    /// or not the object is captured. Nothing is logged.
    pub fn hook_d3d9_create_ex(&mut self, event: CreateExEvent) -> (res: Step<
        CaptureAction<(u32, usize), i32>,
    >)
        requires
            old(self).creator_hooked(Creator::Direct3DCreate9Ex),
            event is Exchanged ==> old(self).orig_create_device is Some,
        ensures
            *final(self) == old(self).after_create_ex(event),
            old(self).wf() ==> final(self).wf(),
            res.log@ == crate::hooks::silent(),
            match event {
                CreateExEvent::Entered { sdk, pointer } => res.action == (CaptureAction::<(u32, usize), i32>::CallOriginal {
                    arguments: (sdk, pointer),
                }),
                CreateExEvent::Returned { status, out } => {
                    &&& old(self).captures_ex(status, out) ==> (
                    res.action matches CaptureAction::Allocate { result, object, bytes } && result == status
                        && object == out->0
                        && bytes == table_bytes())
                    &&& !old(self).captures_ex(status, out) ==> res.action == (CaptureAction::<(u32, usize), i32>::Return { result: status })
                },
                CreateExEvent::Allocated { status, object, block, table, detour } => {
                    &&& block != 0 ==> (res.action matches CaptureAction::Exchange {
                        result,
                        object: o,
                        block: b,
                        table: copy,
                        protect,
                    } && result == status && o == object && b == block && copy@ == patched(table@, detour)
                        && protect == SLOT_BYTES)
                    &&& block == 0 ==> res.action == (CaptureAction::<(u32, usize), i32>::Return { result: status })
                },
                CreateExEvent::Exchanged { status } => res.action == (CaptureAction::<(u32, usize), i32>::Return {
                    result: status,
                }),
            },
    {
        let action = match event {
            CreateExEvent::Entered { sdk, pointer } => CaptureAction::CallOriginal {
                arguments: (sdk, pointer),
            },
            CreateExEvent::Returned { status, out } => {
                let object: usize = match out {
                    Some(object) => object,
                    None => 0,
                };
                if status >= 0 && object != 0 && !self.device_captured {
                    CaptureAction::Allocate { result: status, object, bytes: table_size() }
                } else {
                    CaptureAction::Return { result: status }
                }
            },
            CreateExEvent::Allocated { status, object, block, table, detour } => {
                match self.copy_table(block, table, detour) {
                    Some(copy) => CaptureAction::Exchange {
                        result: status,
                        object,
                        block,
                        table: copy,
                        protect: SLOT_BYTES,
                    },
                    None => CaptureAction::Return { result: status },
                }
            },
            CreateExEvent::Exchanged { status } => {
                self.device_captured = true;
                CaptureAction::Return { result: status }
            },
        };
        Step { log: Vec::new(), action }
    }
}

/// Bytes of a copied table.
fn table_size() -> (res: usize)
    ensures
        res == table_bytes(),
{
    broadcast use vstd::layout::layout_of_primitives;

    let slot: usize = core::mem::size_of::<usize>();
    TABLE_SLOTS * slot
}

/// The copy differs from the table only in `CreateDevice`, and putting the
/// remembered address back restores the table.
pub proof fn law_copy_can_be_undone(hooks: Hooks, block: usize, table: [usize; 32], detour: usize)
    requires
        block != 0,
    ensures
        patched(table@, detour).len() == TABLE_SLOTS,
        patched(table@, detour)[SLOT_CREATE_DEVICE as int] == detour,
        forall|i: int|
            0 <= i < TABLE_SLOTS && i != SLOT_CREATE_DEVICE ==> #[trigger] patched(
                table@,
                detour,
            )[i] == table@[i],
        hooks.after_allocated(block, table@).orig_create_device is Some,
        patched(table@, detour).update(
            SLOT_CREATE_DEVICE as int,
            hooks.after_allocated(block, table@).orig_create_device->0,
        ) == table@,
{
    assert(patched(table@, detour).update(
        SLOT_CREATE_DEVICE as int,
        hooks.after_allocated(block, table@).orig_create_device->0,
    ) =~= table@);
}

/// A whole call of one of the two functions, with everything that outside calls
/// returned. `block`, `table` and `detour` matter only if memory is asked for.
pub enum Creation {
    /// `Direct3DCreate9`.
    Create { sdk: u32, object: usize, block: usize, table: [usize; 32], detour: usize },
    /// `Direct3DCreate9Ex`.
    CreateEx {
        sdk: u32,
        pointer: usize,
        status: i32,
        out: Option<usize>,
        block: usize,
        table: [usize; 32],
        detour: usize,
    },
}

/// The state after a whole call.
pub open spec fn after_creation(hooks: Hooks, creation: Creation) -> Hooks {
    match creation {
        Creation::Create { sdk, object, block, table, detour } => {
            let returned = hooks.after_create(CreateEvent::Entered { sdk }).after_create(
                CreateEvent::Returned { object },
            );
            let allocated = returned.after_create(
                CreateEvent::Allocated { object, block, table, detour },
            );
            if !hooks.captures(object) {
                returned
            } else if block == 0 {
                allocated
            } else {
                allocated.after_create(CreateEvent::Exchanged { object })
            }
        },
        Creation::CreateEx { sdk, pointer, status, out, block, table, detour } => {
            let returned = hooks.after_create_ex(
                CreateExEvent::Entered { sdk, pointer },
            ).after_create_ex(CreateExEvent::Returned { status, out });
            let allocated = returned.after_create_ex(
                CreateExEvent::Allocated { status, object: out->0, block, table, detour },
            );
            if !hooks.captures_ex(status, out) {
                returned
            } else if block == 0 {
                allocated
            } else {
                allocated.after_create_ex(CreateExEvent::Exchanged { status })
            }
        },
    }
}

/// A whole call captures the object that it creates.
pub open spec fn creation_captures(hooks: Hooks, creation: Creation) -> bool {
    match creation {
        Creation::Create { object, block, .. } => hooks.captures(object) && block != 0,
        Creation::CreateEx { status, out, block, .. } => hooks.captures_ex(status, out) && block
            != 0,
    }
}

/// The object's own `CreateDevice`.
pub open spec fn creation_target(creation: Creation) -> usize {
    match creation {
        Creation::Create { table, .. } => table@[SLOT_CREATE_DEVICE as int],
        Creation::CreateEx { table, .. } => table@[SLOT_CREATE_DEVICE as int],
    }
}

/// A whole call that captures an object remembers the object's own `CreateDevice`.
/// Any other whole call changes nothing.
pub proof fn law_creation_captures_or_changes_nothing(hooks: Hooks, creation: Creation)
    ensures
        after_creation(hooks, creation) == if creation_captures(hooks, creation) {
            Hooks {
                device_captured: true,
                orig_create_device: Some(creation_target(creation)),
                ..hooks
            }
        } else {
            hooks
        },
{
}

/// Once a root object has been captured, no further one is, and no event of either
/// detour forgets that.
pub proof fn law_capture_happens_once(
    hooks: Hooks,
    create: CreateEvent,
    create_ex: CreateExEvent,
    object: usize,
    status: i32,
    out: Option<usize>,
)
    requires
        hooks.device_captured,
    ensures
        !hooks.captures(object),
        !hooks.captures_ex(status, out),
        hooks.after_create(create).device_captured,
        hooks.after_create_ex(create_ex).device_captured,
{
}

} // verus!
