use sd_video_hook::capture::{alloc_exec, CaptureAction, CreateEvent, CreateExEvent};
use sd_video_hook::d3d::{Creator, DeviceHook};
use sd_video_hook::device::{
    CreateDeviceAction, CreateDeviceEvent, DeviceRequest, InstallAction, InstallEvent,
};
use sd_video_hook::hooks::{Attach, DllMain, Hooks, Outcome};
use sd_video_hook::message::Message;

fn table() -> [usize; 32] {
    let mut t = [0usize; 32];
    for i in 0..32 {
        t[i] = 0x1000 + i;
    }
    t
}

fn hooked() -> Hooks {
    let mut h = Hooks::new();
    h.real_d3d9_create = 0x77;
    h.create_hooked = true;
    h.create_ex_hooked = true;
    h
}

const BYTES: usize = 32 * core::mem::size_of::<usize>();

#[test]
fn the_worker_is_started_once() {
    let mut h = Hooks::new();
    assert_eq!(
        DllMain(&mut h, 2),
        Attach { disable_thread_calls: false, start_worker: false, result: 1 }
    );
    assert_eq!(h, Hooks::new());
    assert_eq!(
        DllMain(&mut h, 1),
        Attach { disable_thread_calls: true, start_worker: true, result: 1 }
    );
    assert_eq!(
        DllMain(&mut h, 1),
        Attach { disable_thread_calls: true, start_worker: false, result: 1 }
    );
    assert_eq!(
        DllMain(&mut h, 0),
        Attach { disable_thread_calls: false, start_worker: false, result: 1 }
    );
    let mut h = Hooks::new();
    assert!(h.bootstrap_once());
    assert!(!h.bootstrap_once());
}

#[test]
fn failed_allocations_are_recognised() {
    assert_eq!(alloc_exec(0), None);
    assert_eq!(alloc_exec(0x4000), Some(0x4000));
}

#[test]
fn the_first_root_object_is_captured() {
    let mut h = hooked();
    let step = h.hook_d3d9_create(CreateEvent::Entered { sdk: 32 });
    assert_eq!(step.action, CaptureAction::CallOriginal { arguments: 32 });
    assert_eq!(step.log, vec![]);
    let step = h.hook_d3d9_create(CreateEvent::Returned { object: 0x900 });
    assert_eq!(step.log, vec![Message::RootCreated { object: 0x900 }]);
    assert_eq!(step.action, CaptureAction::Allocate { result: 0x900, object: 0x900, bytes: BYTES });
    assert_eq!(h, hooked());

    let step = h.hook_d3d9_create(CreateEvent::Allocated {
        object: 0x900,
        block: 0x4000,
        table: table(),
        detour: 0xbeef,
    });
    let mut copy = table();
    copy[16] = 0xbeef;
    assert_eq!(step.log, vec![]);
    assert_eq!(step.action, CaptureAction::Exchange {
            result: 0x900,
            object: 0x900,
            block: 0x4000,
            table: copy,
            protect: 4,
        });
    assert_eq!(h.orig_create_device, Some(0x1010));
    assert!(!h.device_captured);
    copy[16] = h.orig_create_device.unwrap();
    assert_eq!(copy, table());

    let step = h.hook_d3d9_create(CreateEvent::Exchanged { object: 0x900 });
    assert_eq!(step.log, vec![Message::TableCopied]);
    assert_eq!(step.action, CaptureAction::Return { result: 0x900 });
    assert!(h.device_captured);

    let step = h.hook_d3d9_create(CreateEvent::Returned { object: 0xa00 });
    assert_eq!(step.log, vec![Message::RootCreated { object: 0xa00 }]);
    assert_eq!(step.action, CaptureAction::Return { result: 0xa00 });
    let step = h.hook_d3d9_create_ex(CreateExEvent::Returned { status: 0, out: Some(0xa00) });
    assert_eq!(step.action, CaptureAction::Return { result: 0 });
}

#[test]
fn a_null_object_or_missing_memory_captures_nothing() {
    let mut h = hooked();
    let step = h.hook_d3d9_create(CreateEvent::Returned { object: 0 });
    assert_eq!(step.log, vec![Message::RootCreated { object: 0 }]);
    assert_eq!(step.action, CaptureAction::Return { result: 0 });
    let step = h.hook_d3d9_create(CreateEvent::Allocated {
        object: 0x900,
        block: 0,
        table: table(),
        detour: 0xbeef,
    });
    assert_eq!(step.action, CaptureAction::Return { result: 0x900 });
    let step = h.hook_d3d9_create_ex(CreateExEvent::Allocated {
        status: 1,
        object: 0x900,
        block: 0,
        table: table(),
        detour: 0xbeef,
    });
    assert_eq!(step.action, CaptureAction::Return { result: 1 });
    assert_eq!(h, hooked());
}

#[test]
fn the_extended_function_captures_silently() {
    let mut h = hooked();
    let step = h.hook_d3d9_create_ex(CreateExEvent::Entered { sdk: 32, pointer: 0x55 });
    assert_eq!(step.action, CaptureAction::CallOriginal { arguments: (32, 0x55) });
    assert_eq!(step.log, vec![]);
    for (status, out) in [(-1, Some(0x900)), (0, None), (0, Some(0))] {
        let step = h.hook_d3d9_create_ex(CreateExEvent::Returned { status, out });
        assert_eq!(step.action, CaptureAction::Return { result: status });
        assert_eq!(step.log, vec![]);
    }
    let step = h.hook_d3d9_create_ex(CreateExEvent::Returned { status: 1, out: Some(0x900) });
    assert_eq!(step.action, CaptureAction::Allocate { result: 1, object: 0x900, bytes: BYTES });
    let step = h.hook_d3d9_create_ex(CreateExEvent::Allocated {
        status: 1,
        object: 0x900,
        block: 0x4000,
        table: table(),
        detour: 0xbeef,
    });
    let mut copy = table();
    copy[16] = 0xbeef;
    assert_eq!(step.action, CaptureAction::Exchange {
            result: 1,
            object: 0x900,
            block: 0x4000,
            table: copy,
            protect: 4,
        });
    let step = h.hook_d3d9_create_ex(CreateExEvent::Exchanged { status: 1 });
    assert_eq!(step.action, CaptureAction::Return { result: 1 });
    assert_eq!(step.log, vec![]);
    assert_eq!(h.orig_create_device, Some(0x1010));
    assert!(h.device_captured);
}

#[test]
fn a_created_device_is_hooked() {
    let mut h = Hooks::new();
    h.orig_create_device = Some(0x1010);
    let request = DeviceRequest {
        d3d9: 0x900,
        adapter: 0,
        device_type: 1,
        hwnd: 0x77,
        behavior: 0x40,
        parameters: 0x88,
        out_device: 0x66,
    };
    let step = h.detour_create_device(CreateDeviceEvent::Entered { request });
    assert_eq!(step.action, CreateDeviceAction::CallOriginal { target: 0x1010, request });
    assert_eq!(step.log, vec![]);
    let step = h.detour_create_device(CreateDeviceEvent::Returned { status: 0, out: Some(0x30) });
    assert_eq!(step.log, vec![Message::DeviceCreated { status: 0, device: 0x30 }]);
    assert_eq!(step.action, CreateDeviceAction::Install { device: 0x30, status: 0 });
    for (status, out, device) in
        [(1, Some(0x30), 0x30), (-5, Some(0x30), 0x30), (0, None, 0), (0, Some(0), 0)]
    {
        let step = h.detour_create_device(CreateDeviceEvent::Returned { status, out });
        assert_eq!(step.log, vec![Message::DeviceCreated { status, device }]);
        assert_eq!(step.action, CreateDeviceAction::Return { status });
    }
}

#[test]
fn each_device_method_is_tried_once() {
    let mut h = Hooks::new();
    let device = 0x30;
    let step = h.install_device_hooks(InstallEvent::Started { device });
    assert_eq!(step.action, InstallAction::Attach { device, hook: DeviceHook::EndScene, slot: 42 });
    assert_eq!(step.log, vec![]);
    let step = h.install_device_hooks(InstallEvent::Tried {
        device,
        hook: DeviceHook::EndScene,
        outcome: Outcome::Enabled,
    });
    assert_eq!(step.action, InstallAction::Attach { device, hook: DeviceHook::SetRenderTarget, slot: 37 });
    assert_eq!(step.log, vec![Message::DeviceHooked { hook: DeviceHook::EndScene }]);
    let step = h.install_device_hooks(InstallEvent::Tried {
        device,
        hook: DeviceHook::SetRenderTarget,
        outcome: Outcome::NotEnabled,
    });
    assert_eq!(step.action, InstallAction::Attach { device, hook: DeviceHook::SetRenderState, slot: 57 });
    assert_eq!(step.log, vec![]);
    let step = h.install_device_hooks(InstallEvent::Tried {
        device,
        hook: DeviceHook::SetRenderState,
        outcome: Outcome::Enabled,
    });
    assert_eq!(step.action, InstallAction::Done);
    assert_eq!(
        step.log,
        vec![
            Message::DeviceHooked { hook: DeviceHook::SetRenderState },
            Message::HooksInstalled { device }
        ]
    );
    assert!(h.is_device_hooked(DeviceHook::EndScene));
    assert!(!h.is_device_hooked(DeviceHook::SetRenderTarget));
    assert!(h.is_device_hooked(DeviceHook::SetRenderState));
    assert!(!h.is_creator_hooked(Creator::Direct3DCreate9));
    assert!(!h.is_creator_hooked(Creator::Direct3DCreate9Ex));
}

#[test]
fn a_refused_method_stays_as_it_was() {
    let mut h = Hooks::new();
    h.set_render_state_hooked = true;
    let step = h.install_device_hooks(InstallEvent::Tried {
        device: 9,
        hook: DeviceHook::SetRenderState,
        outcome: Outcome::Refused,
    });
    assert_eq!(step.log, vec![Message::HooksInstalled { device: 9 }]);
    assert!(h.is_device_hooked(DeviceHook::SetRenderState));
}

#[test]
fn nothing_that_was_set_up_is_undone() {
    let mut h = hooked();
    h.hook_d3d9_create(CreateEvent::Allocated {
        object: 0x900,
        block: 0x4000,
        table: table(),
        detour: 0xbeef,
    });
    h.hook_d3d9_create(CreateEvent::Exchanged { object: 0x900 });
    DllMain(&mut h, 1);
    let before = h;
    DllMain(&mut h, 0);
    h.hook_d3d9_create(CreateEvent::Returned { object: 0 });
    h.hook_d3d9_create_ex(CreateExEvent::Returned { status: -1, out: None });
    h.install_device_hooks(InstallEvent::Tried {
        device: 9,
        hook: DeviceHook::EndScene,
        outcome: Outcome::Refused,
    });
    assert_eq!(h, before);
    assert!(h.device_captured && h.orig_create_device == Some(0x1010));
}

#[test]
fn the_captured_method_is_kept() {
    let mut h = hooked();
    for object in [0x900usize, 0xa00, 0xb00] {
        let mut own = table();
        own[16] = object + 1;
        let mut event = CreateEvent::Returned { object };
        loop {
            event = match h.hook_d3d9_create(event).action {
                CaptureAction::CallOriginal { .. } => panic!("the function has returned"),
                CaptureAction::Allocate { .. } => {
                    CreateEvent::Allocated { object, block: 0x4000, table: own, detour: 0xbeef }
                }
                CaptureAction::Exchange { .. } => CreateEvent::Exchanged { object },
                CaptureAction::Return { result } => {
                    assert_eq!(result, object);
                    break;
                }
            };
        }
        assert!(h.device_captured);
        assert_eq!(h.orig_create_device, Some(0x901));
    }
}
