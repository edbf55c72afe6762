use sd_video_hook::d3d::Creator;
use sd_video_hook::hooks::{Hooks, Outcome};
use sd_video_hook::message::Message;
use sd_video_hook::worker::{WorkerAction, WorkerEvent, LIBRARY};

const M: usize = 0x6f00_0000;

/// Runs a worker to its end, with the addresses and outcomes given, and hands back
/// what it logged and how often it slept.
fn run(
    h: &mut Hooks,
    loaded: Option<usize>,
    module: Option<usize>,
    addresses: [Option<usize>; 2],
    outcomes: [Outcome; 2],
) -> (Vec<Message>, u32) {
    let mut log: Vec<Message> = Vec::new();
    let mut slept = 0;
    let mut event = WorkerEvent::Started;
    loop {
        let step = h.worker_thread_body(event);
        log.extend(step.log);
        event = match step.action {
            WorkerAction::Preload => WorkerEvent::Preloaded { loaded },
            WorkerAction::FindModule => match module {
                Some(module) => WorkerEvent::Found { module },
                None => WorkerEvent::NotFound { error: String::from("gone") },
            },
            WorkerAction::FindSymbol { module, creator } => WorkerEvent::Resolved {
                module,
                creator,
                address: addresses[if creator == Creator::Direct3DCreate9 { 0 } else { 1 }],
            },
            WorkerAction::Attach { module, creator, target } => {
                let i = if creator == Creator::Direct3DCreate9 { 0 } else { 1 };
                assert_eq!(Some(target), addresses[i]);
                WorkerEvent::Tried { module, creator, outcome: outcomes[i] }
            }
            WorkerAction::Sleep { tick, millis } => {
                assert_eq!(tick, slept);
                assert_eq!(millis, 1);
                slept += 1;
                WorkerEvent::Slept { tick }
            }
            WorkerAction::Exit => return (log, slept),
        };
    }
}

fn reports(h: &Hooks) -> Vec<Message> {
    (0..100)
        .map(|i| Message::Heartbeat {
            tick: i * 1200,
            captured: h.device_captured,
            surface: h.last_video_rt,
            forced: 0,
        })
        .collect()
}

#[test]
fn a_whole_run() {
    let mut h = Hooks::new();
    h.device_captured = true;
    h.orig_create_device = Some(5);
    h.last_video_rt = 0xabc;
    let (log, slept) =
        run(&mut h, Some(M), Some(M), [Some(0x10), Some(0x20)], [Outcome::Enabled; 2]);
    assert_eq!(slept, 120000);
    let mut expected = vec![
        Message::Banner,
        Message::Preloaded { module: M },
        Message::Module { module: M },
        Message::CreatorHooked { creator: Creator::Direct3DCreate9 },
        Message::CreatorHooked { creator: Creator::Direct3DCreate9Ex },
    ];
    expected.extend(reports(&h));
    assert_eq!(log, expected);
    assert_eq!(h.real_d3d9_create, 0x10);
    assert!(h.is_creator_hooked(Creator::Direct3DCreate9));
    assert!(h.is_creator_hooked(Creator::Direct3DCreate9Ex));
}

#[test]
fn missing_functions_are_passed_over() {
    let mut h = Hooks::new();
    let (log, slept) = run(&mut h, None, Some(M), [None, Some(0)], [Outcome::Enabled; 2]);
    assert_eq!(slept, 120000);
    let mut expected = vec![Message::Banner, Message::Module { module: M }];
    expected.extend(reports(&h));
    assert_eq!(log, expected);
    assert_eq!(h, Hooks::new());
}

#[test]
fn functions_that_cannot_be_hooked_are_passed_over() {
    let mut h = Hooks::new();
    let (log, slept) = run(
        &mut h,
        Some(M),
        Some(M),
        [Some(0x10), Some(0x20)],
        [Outcome::NotEnabled, Outcome::Refused],
    );
    assert_eq!(slept, 120000);
    assert_eq!(log.len(), 103);
    assert_eq!(h.real_d3d9_create, 0x10);
    assert!(!h.is_creator_hooked(Creator::Direct3DCreate9));
    assert!(!h.is_creator_hooked(Creator::Direct3DCreate9Ex));
}

#[test]
fn the_second_function_does_not_need_the_first() {
    let mut h = Hooks::new();
    run(&mut h, None, Some(M), [None, Some(0x20)], [Outcome::Enabled; 2]);
    assert_eq!(h.real_d3d9_create, 0);
    assert!(!h.is_creator_hooked(Creator::Direct3DCreate9));
    assert!(h.is_creator_hooked(Creator::Direct3DCreate9Ex));
}

#[test]
fn without_the_library_the_worker_ends() {
    let mut h = Hooks::new();
    let (log, slept) = run(&mut h, None, None, [Some(1), Some(1)], [Outcome::Enabled; 2]);
    assert_eq!(slept, 0);
    assert_eq!(
        log,
        vec![Message::Banner, Message::NoModule { error: String::from("gone") }]
    );
    assert_eq!(h, Hooks::new());
}

#[test]
fn the_library_is_named() {
    assert_eq!(LIBRARY, "d3d9.dll");
}
