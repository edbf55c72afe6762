use sd_video_hook::d3d::{Creator, DeviceHook};
use sd_video_hook::logger::{log, log_file, LogOutput, Logger};
use sd_video_hook::message::Message;
use sd_video_hook::text::{
    push_address, push_bits, push_decimal, push_hexadecimal, push_truth,
};

fn text_of(m: Message) -> String {
    m.text()
}

#[test]
fn numbers_are_written_like_the_formatter_writes_them() {
    for n in [0u64, 1, 9, 10, 15, 16, 255, 256, 120000, 0x59565955, u64::MAX] {
        let mut s = String::from(">");
        push_decimal(&mut s, n);
        assert_eq!(s, format!(">{}", n));
        let mut s = String::from(">");
        push_hexadecimal(&mut s, n);
        assert_eq!(s, format!(">{:x}", n));
    }
    for n in [0usize, 0x1000, 0xdead_beef, usize::MAX] {
        let mut s = String::new();
        push_address(&mut s, n);
        assert_eq!(s, format!("{:#x}", n));
    }
    for n in [0i32, 1, -1, i32::MIN, i32::MAX, -2005530516] {
        let mut s = String::new();
        push_bits(&mut s, n);
        assert_eq!(s, format!("{:x}", n));
    }
    for b in [true, false] {
        let mut s = String::new();
        push_truth(&mut s, b);
        assert_eq!(s, format!("{}", b));
    }
}

#[test]
fn digits_read_back_and_tell_numbers_apart() {
    let mut seen: Vec<String> = Vec::new();
    for n in 0u64..600 {
        let mut s = String::new();
        push_hexadecimal(&mut s, n);
        assert_eq!(u64::from_str_radix(&s, 16).unwrap(), n);
        assert!(!seen.contains(&s));
        seen.push(s);
    }
}

#[test]
fn worker_lines() {
    assert_eq!(
        text_of(Message::Banner),
        "=== sd_video_hook v16.0 (retour + StretchRect BEFORE EndScene + correct offsets) ==="
    );
    assert_eq!(
        text_of(Message::Preloaded { module: 0x6f00_0000 }),
        "[PRELOAD] d3d9.dll @ 0x6f000000"
    );
    assert_eq!(
        text_of(Message::NoModule { error: String::from("not found (0x8007007E)") }),
        "[ERR] not found (0x8007007E)"
    );
    assert_eq!(text_of(Message::Module { module: 0x6f00_0000 }), "[MOD] d3d9.dll @ 0x6f000000");
    assert_eq!(
        text_of(Message::CreatorHooked { creator: Creator::Direct3DCreate9 }),
        "[OK] Direct3DCreate9 hooked"
    );
    assert_eq!(
        text_of(Message::CreatorHooked { creator: Creator::Direct3DCreate9Ex }),
        "[OK] Direct3DCreate9Ex hooked"
    );
    assert_eq!(
        text_of(Message::Heartbeat { tick: 2400, captured: true, surface: 0xabc0, forced: 0 }),
        "[STATE] tick=2400 dev=true rt=0xabc0 forced=0"
    );
    assert_eq!(
        text_of(Message::Heartbeat { tick: 0, captured: false, surface: 0, forced: 0 }),
        "[STATE] tick=0 dev=false rt=0x0 forced=0"
    );
}

#[test]
fn device_lines() {
    assert_eq!(text_of(Message::RootCreated { object: 0 }), "[D3D9] call, result=0x0");
    assert_eq!(text_of(Message::TableCopied), "[VT-COPY] IDirect3D9 vtable copied");
    assert_eq!(
        text_of(Message::DeviceCreated { status: -2005530516, device: 0 }),
        "[CreateDevice] hr=0x8876086c out=0x0"
    );
    assert_eq!(
        text_of(Message::DeviceCreated { status: 0, device: 0x1234 }),
        "[CreateDevice] hr=0x0 out=0x1234"
    );
    assert_eq!(
        text_of(Message::DeviceHooked { hook: DeviceHook::EndScene }),
        "[OK] EndScene hooked"
    );
    assert_eq!(
        text_of(Message::DeviceHooked { hook: DeviceHook::SetRenderTarget }),
        "[OK] SetRT hooked"
    );
    assert_eq!(
        text_of(Message::DeviceHooked { hook: DeviceHook::SetRenderState }),
        "[OK] SetRenderState hooked"
    );
    assert_eq!(
        text_of(Message::HooksInstalled { device: 0x1234 }),
        "[DEV] 0x1234 \u{2014} hooks installed"
    );
    assert_eq!(
        text_of(Message::RenderTarget {
            n: 7,
            surface: 0x5000,
            width: 640,
            height: 348,
            format: 22,
            video: true,
        }),
        "[SRT] #7: 0x5000 640x348 fmt=0x16 video=true"
    );
    assert_eq!(text_of(Message::VideoSurface { surface: 0x5000 }), "[SRT] video surface 0x5000");
    assert_eq!(text_of(Message::ForcedDraw { n: 300, status: -1 }), "[FORCE-RS] #300 hr=0xffffffff");
    assert_eq!(text_of(Message::FrameEnded { n: 10 }), "[ES] #10");
}

#[test]
fn a_line_goes_to_both_destinations() {
    let logger = Logger::new(true);
    assert_eq!(
        logger.line("abc"),
        LogOutput { file: Some(b"abc\r\n".to_vec()), debugger: Some(b"abc\r\n\0".to_vec()) }
    );
    assert_eq!(log(Some(&logger), "abc"), logger.line("abc"));
}

#[test]
fn text_outside_ascii_is_encoded() {
    let out = Logger::new(true).line("\u{2014}");
    assert_eq!(out.file, Some(vec![0xe2, 0x80, 0x94, 13, 10]));
    assert_eq!(out.debugger, Some(vec![0xe2, 0x80, 0x94, 13, 10, 0]));
}

#[test]
fn without_a_file_only_the_debugger_is_written_to() {
    let out = Logger::new(false).line("");
    assert_eq!(out, LogOutput { file: None, debugger: Some(b"\r\n\0".to_vec()) });
}

#[test]
fn a_nul_keeps_a_line_from_the_debugger() {
    let out = Logger::new(true).line("a\0b");
    assert_eq!(out, LogOutput { file: Some(b"a\0b\r\n".to_vec()), debugger: None });
    assert_eq!(Logger::new(false).line("\0"), LogOutput { file: None, debugger: None });
}

#[test]
fn a_line_is_lost_when_the_log_cannot_be_had() {
    assert_eq!(log(None, "abc"), LogOutput { file: None, debugger: None });
}

#[test]
fn the_log_file_lies_beside_the_executable() {
    let beside = log_file(Some("C:/Game"));
    assert_eq!(beside.dir, Some("C:/Game"));
    assert_eq!(beside.name, "hook_rebuilt.log");
    let here = log_file::<&str>(None);
    assert_eq!(here.dir, None);
    assert_eq!(here.name, "hook_rebuilt.log");
}
