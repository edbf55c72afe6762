use sd_video_hook::d3d::{
    describe_rt, looks_video, quad, Creator, DeviceHook, DrawCall, Vertex,
};
use sd_video_hook::device::{
    FrameAction, FrameEvent, InstallEvent, StateAction, StateEvent, TargetAction, TargetEvent,
};
use sd_video_hook::hooks::{Hooks, Outcome};
use sd_video_hook::message::Message;
use sd_video_hook::worker::WorkerEvent;

fn hooked() -> Hooks {
    let mut h = Hooks::new();
    h.end_scene_hooked = true;
    h.set_render_target_hooked = true;
    h.set_render_state_hooked = true;
    h
}

fn desc(width: u32, height: u32, format: u32) -> (i32, [u32; 8]) {
    (0, [format, 1, 2, 3, 4, 5, width, height])
}

fn bind(h: &mut Hooks, surface: usize, reply: (i32, [u32; 8])) -> Vec<Message> {
    let entered = TargetEvent::Entered { device: 0x99, index: 0, surface };
    let n = match h.detour_set_render_target(entered).action {
        TargetAction::CallOriginal { n, device, index, surface: s } => {
            assert_eq!((device, index, s), (0x99, 0, surface));
            n
        }
        other => panic!("{:?}", other),
    };
    let step =
        h.detour_set_render_target(TargetEvent::Returned { n, status: 0, index: 0, surface });
    assert_eq!(step.action, TargetAction::Describe { n, status: 0, surface, slot: 12 });
    let step =
        h.detour_set_render_target(TargetEvent::Described { n, status: 0, surface, reply });
    assert_eq!(step.action, TargetAction::Return { status: 0 });
    step.log
}

fn set_state(h: &mut Hooks, state: u32) -> bool {
    assert_eq!(
        h.detour_set_rs(StateEvent::Entered { device: 0x99, state, value: 8 }).action,
        StateAction::CallOriginal { device: 0x99, state, value: 8 }
    );
    match h.detour_set_rs(StateEvent::Returned { device: 0x99, status: 3, state }).action {
        StateAction::CallOriginal { .. } => panic!("the method has returned"),
        StateAction::Draw { device, status, call } => {
            assert_eq!((device, status), (0x99, 3));
            assert_eq!(call, DrawCall::video());
            let step = h.detour_set_rs(StateEvent::Drawn { status: 3, drawn: 0 });
            assert_eq!(step.action, StateAction::Return { status: 3 });
            true
        }
        StateAction::Return { status } => {
            assert_eq!(status, 3);
            false
        }
    }
}

fn end_frame(h: &mut Hooks) -> Vec<Message> {
    let n = match h.detour_end_scene(FrameEvent::Entered { device: 0x99 }).action {
        FrameAction::CallOriginal { n, device } => {
            assert_eq!(device, 0x99);
            n
        }
        other => panic!("{:?}", other),
    };
    let step = h.detour_end_scene(FrameEvent::Returned { n, status: -7 });
    assert_eq!(step.action, FrameAction::Return { status: -7 });
    step.log
}

#[test]
fn slots_and_symbols() {
    assert_eq!(DeviceHook::EndScene.slot(), 42);
    assert_eq!(DeviceHook::SetRenderTarget.slot(), 37);
    assert_eq!(DeviceHook::SetRenderState.slot(), 57);
    assert_eq!(DeviceHook::EndScene.slot() * 4, 0xa8);
    assert_eq!(DeviceHook::SetRenderTarget.slot() * 4, 0x94);
    assert_eq!(DeviceHook::SetRenderState.slot() * 4, 0xe4);
    assert_eq!(DeviceHook::EndScene.following(), Some(DeviceHook::SetRenderTarget));
    assert_eq!(DeviceHook::SetRenderState.following(), None);
    assert_eq!(Creator::Direct3DCreate9.symbol(), "Direct3DCreate9");
    assert_eq!(Creator::Direct3DCreate9Ex.symbol(), "Direct3DCreate9Ex");
}

#[test]
fn surfaces_are_described() {
    assert_eq!(describe_rt(None), (0, 0, 0));
    assert_eq!(describe_rt(Some(desc(640, 348, 22))), (640, 348, 22));
    assert_eq!(describe_rt(Some((1, [9; 8]))), (0, 0, 0));
    assert_eq!(describe_rt(Some((-1, [9; 8]))), (0, 0, 0));
}

#[test]
fn video_surfaces_are_recognised() {
    assert!(looks_video(640, 348, 22));
    assert!(looks_video(768, 512, 22));
    assert!(looks_video(1, 1, 0x59565955));
    assert!(looks_video(1, 1, 0x32595559));
    assert_eq!(u32::from_le_bytes(*b"UYVY"), 0x59565955);
    assert_eq!(u32::from_le_bytes(*b"YUY2"), 0x32595559);
    assert!(!looks_video(640, 480, 22));
    assert!(!looks_video(1024, 64, 22));
    assert!(!looks_video(348, 640, 22));
    assert!(!looks_video(640, 512, 22));
    assert!(!looks_video(768, 348, 22));
    assert!(!looks_video(0, 0, 0));
}

#[test]
fn the_draw_call_shows_the_whole_video() {
    let v = |x, y, u, v| Vertex { x, y, z: 0, rhw: 1, u, v };
    assert_eq!(quad(), [v(0, 66, 0, 0), v(640, 66, 1, 0), v(0, 414, 0, 1), v(640, 414, 1, 1)]);
    let call = DrawCall::video();
    assert_eq!(call.slot, 83);
    assert_eq!(call.primitive, 5);
    assert_eq!(call.count, 2);
    assert_eq!(call.stride, 24);
    assert_eq!(call.vertices, quad());
    assert_eq!(414 - 66, 348);
    assert_eq!(480 - 414, 66);
}

#[test]
fn nothing_is_drawn_before_a_video_is_known() {
    let mut h = hooked();
    assert!(!set_state(&mut h, 0xd1));
    bind(&mut h, 0x10, desc(640, 480, 22));
    assert!(!set_state(&mut h, 0xd1));
    assert_eq!(h.rs_draw_count, 0);
    assert_eq!(h.last_current_rt, 0x10);
    assert_eq!(h.last_video_rt, 0);
}

#[test]
fn one_draw_per_frame() {
    let mut h = hooked();
    bind(&mut h, 0x10, desc(640, 348, 22));
    for frame in 0..3 {
        assert!(!set_state(&mut h, 0x1b));
        assert!(set_state(&mut h, 0xd1));
        assert!(!set_state(&mut h, 0xd1));
        assert!(!set_state(&mut h, 0xd1));
        assert_eq!(h.rs_draw_count, 3);
        end_frame(&mut h);
        assert_eq!(h.rs_draw_count, 0);
        assert_eq!(h.force_count, frame + 1);
    }
}

#[test]
fn a_full_counter_does_not_draw_again() {
    let mut h = hooked();
    h.last_video_rt = 0x10;
    h.rs_draw_count = usize::MAX - 1;
    for _ in 0..4 {
        assert!(!set_state(&mut h, 0xd1));
        assert_eq!(h.rs_draw_count, usize::MAX);
    }
    assert_eq!(h.force_count, 0);
    end_frame(&mut h);
    assert!(set_state(&mut h, 0xd1));
}

#[test]
fn calls_are_counted_and_the_counts_come_round() {
    let mut h = hooked();
    for _ in 0..7 {
        bind(&mut h, 0x20, desc(640, 480, 22));
    }
    for _ in 0..5 {
        end_frame(&mut h);
    }
    assert_eq!((h.srt_count, h.es_count), (7, 5));
    h.srt_count = usize::MAX;
    h.es_count = usize::MAX;
    h.force_count = usize::MAX;
    h.last_video_rt = 0x10;
    bind(&mut h, 0x20, desc(640, 480, 22));
    end_frame(&mut h);
    assert!(set_state(&mut h, 0xd1));
    assert_eq!((h.srt_count, h.es_count, h.force_count), (0, 0, 0));
}

#[test]
fn other_events_within_a_frame_do_not_make_it_draw_again() {
    let mut h = hooked();
    bind(&mut h, 0x10, desc(640, 348, 22));
    assert!(set_state(&mut h, 0xd1));
    bind(&mut h, 0x30, desc(768, 512, 22));
    h.worker_thread_body(WorkerEvent::Slept { tick: 4 });
    h.install_device_hooks(InstallEvent::Tried {
        device: 0x99,
        hook: DeviceHook::EndScene,
        outcome: Outcome::Enabled,
    });
    h.bootstrap_once();
    assert!(!set_state(&mut h, 0xd1));
    let n = 0;
    h.detour_end_scene(FrameEvent::Entered { device: 0x99 });
    assert!(set_state(&mut h, 0xd1));
    h.detour_end_scene(FrameEvent::Returned { n, status: 0 });
    assert!(!set_state(&mut h, 0xd1));
}

#[test]
fn the_video_surface_is_remembered() {
    let mut h = hooked();
    bind(&mut h, 0x10, desc(640, 348, 22));
    bind(&mut h, 0x20, desc(640, 480, 22));
    bind(&mut h, 0x30, desc(1024, 64, 21));
    bind(&mut h, 0x20, desc(640, 480, 22));
    assert_eq!(h.last_video_rt, 0x10);
    assert_eq!(h.last_current_rt, 0x20);
    assert!(set_state(&mut h, 0xd1));
    bind(&mut h, 0x40, desc(768, 512, 22));
    assert_eq!(h.last_video_rt, 0x40);
}

#[test]
fn calls_that_bind_nothing_are_passed_through() {
    let mut h = hooked();
    for (status, index, surface) in [(1, 0, 0x10), (-1, 0, 0x10), (0, 1, 0x10), (0, 0, 0)] {
        let before = h;
        let step =
            h.detour_set_render_target(TargetEvent::Returned { n: 0, status, index, surface });
        assert_eq!(step.action, TargetAction::Return { status });
        assert_eq!(step.log, vec![]);
        assert_eq!(h, before);
    }
}

#[test]
fn the_first_fifty_targets_are_logged() {
    let mut h = hooked();
    for n in 0..60 {
        let log = bind(&mut h, 0x20, desc(640, 480, 22));
        if n < 50 {
            assert_eq!(
                log,
                vec![Message::RenderTarget {
                    n,
                    surface: 0x20,
                    width: 640,
                    height: 480,
                    format: 22,
                    video: false,
                }]
            );
        } else {
            assert_eq!(log, vec![]);
        }
    }
    assert_eq!(bind(&mut h, 0x10, desc(640, 348, 22)), vec![Message::VideoSurface { surface: 0x10 }]);
    let mut h = hooked();
    assert_eq!(
        bind(&mut h, 0x10, desc(640, 348, 22)),
        vec![
            Message::RenderTarget {
                n: 0,
                surface: 0x10,
                width: 640,
                height: 348,
                format: 22,
                video: true,
            },
            Message::VideoSurface { surface: 0x10 }
        ]
    );
    assert_eq!(
        bind(&mut h, 0x20, (-1, [0x59565955; 8])),
        vec![Message::RenderTarget {
            n: 1,
            surface: 0x20,
            width: 0,
            height: 0,
            format: 0,
            video: false,
        }]
    );
}

#[test]
fn ends_of_frames_are_sampled() {
    let mut h = hooked();
    let mut logged: Vec<usize> = Vec::new();
    for n in 0..601 {
        let log = end_frame(&mut h);
        if log.len() == 1 {
            assert_eq!(log, vec![Message::FrameEnded { n }]);
            logged.push(n);
        } else {
            assert_eq!(log, vec![]);
        }
    }
    assert_eq!(logged, vec![0, 1, 2, 3, 4, 5, 6, 7, 8, 9, 300, 600]);
}

#[test]
fn forced_draws_are_sampled() {
    let mut h = hooked();
    let mut logged: Vec<usize> = Vec::new();
    for n in 0..301 {
        let step = h.detour_set_rs(StateEvent::Drawn { status: 0, drawn: -2 });
        if step.log.len() == 1 {
            assert_eq!(step.log, vec![Message::ForcedDraw { n, status: -2 }]);
            logged.push(n);
        }
    }
    assert_eq!(logged, vec![0, 1, 2, 3, 4, 300]);
}
