//! What the hook writes to its log.

use vstd::prelude::*;
use crate::d3d::{Creator, DeviceHook};
use crate::text;

verus! {

/// One line of the log. Addresses are plain numbers, zero standing for null.
#[derive(Debug, PartialEq, Eq)]
pub enum Message {
    /// The worker thread has started.
    Banner,
    /// `d3d9.dll` was loaded ahead of the game.
    Preloaded { module: usize },
    /// `d3d9.dll` was not found.
    NoModule { error: String },
    /// `d3d9.dll` was found.
    Module { module: usize },
    /// A function of `d3d9.dll` is hooked.
    CreatorHooked { creator: Creator },
    /// The worker's regular report.
    Heartbeat { tick: u32, captured: bool, surface: usize, forced: usize },
    /// `Direct3DCreate9` returned.
    RootCreated { object: usize },
    /// The root object has got its own method table.
    TableCopied,
    /// `CreateDevice` returned.
    DeviceCreated { status: i32, device: usize },
    /// A device method is hooked.
    DeviceHooked { hook: DeviceHook },
    /// All device methods have been tried.
    HooksInstalled { device: usize },
    /// A render target was bound.
    RenderTarget {
        n: usize,
        surface: usize,
        width: u32,
        height: u32,
        format: u32,
        video: bool,
    },
    /// A video surface was bound.
    VideoSurface { surface: usize },
    /// A video was drawn.
    ForcedDraw { n: usize, status: i32 },
    /// A frame has ended.
    FrameEnded { n: usize },
}

/// The line that reports a hooked device method.
pub open spec fn device_hooked_text(hook: DeviceHook) -> Seq<char> {
    match hook {
        DeviceHook::EndScene => "[OK] EndScene hooked"@,
        DeviceHook::SetRenderTarget => "[OK] SetRT hooked"@,
        DeviceHook::SetRenderState => "[OK] SetRenderState hooked"@,
    }
}

/// The line that reports a hooked function of `d3d9.dll`.
pub open spec fn creator_hooked_text(creator: Creator) -> Seq<char> {
    match creator {
        Creator::Direct3DCreate9 => "[OK] Direct3DCreate9 hooked"@,
        Creator::Direct3DCreate9Ex => "[OK] Direct3DCreate9Ex hooked"@,
    }
}

impl Message {
    /// The line without its end.
    pub open spec fn spec_text(self) -> Seq<char> {
        match self {
            Message::Banner =>
                "=== sd_video_hook v16.0 (retour + StretchRect BEFORE EndScene + correct offsets) ==="@,
            Message::Preloaded { module } => "[PRELOAD] d3d9.dll @ "@ + text::address(
                module as nat,
            ),
            Message::NoModule { error } => "[ERR] "@ + error@,
            Message::Module { module } => "[MOD] d3d9.dll @ "@ + text::address(
                module as nat,
            ),
            Message::CreatorHooked { creator } => creator_hooked_text(creator),
            Message::Heartbeat { tick, captured, surface, forced } => "[STATE] tick="@
                + text::decimal(tick as nat) + " dev="@ + text::truth(captured)
                + " rt=0x"@ + text::hexadecimal(surface as nat) + " forced="@
                + text::decimal(forced as nat),
            Message::RootCreated { object } => "[D3D9] call, result="@ + text::address(
                object as nat,
            ),
            Message::TableCopied => "[VT-COPY] IDirect3D9 vtable copied"@,
            Message::DeviceCreated { status, device } => "[CreateDevice] hr=0x"@
                + text::hexadecimal(text::bits_of(status)) + " out="@
                + text::address(device as nat),
            Message::DeviceHooked { hook } => device_hooked_text(hook),
            Message::HooksInstalled { device } => "[DEV] "@ + text::address(device as nat)
                + " — hooks installed"@,
            Message::RenderTarget { n, surface, width, height, format, video } => "[SRT] #"@
                + text::decimal(n as nat) + ": "@ + text::address(surface as nat)
                + " "@ + text::decimal(width as nat) + "x"@ + text::decimal(
                height as nat,
            ) + " fmt=0x"@ + text::hexadecimal(format as nat) + " video="@
                + text::truth(video),
            Message::VideoSurface { surface } => "[SRT] video surface "@ + text::address(
                surface as nat,
            ),
            Message::ForcedDraw { n, status } => "[FORCE-RS] #"@ + text::decimal(n as nat)
                + " hr=0x"@ + text::hexadecimal(text::bits_of(status)),
            Message::FrameEnded { n } => "[ES] #"@ + text::decimal(n as nat),
        }
    }

    /// The line without its end.
    pub fn text(&self) -> (res: String)
        ensures
            res@ == self.spec_text(),
    {
        let mut out = String::new();
        match self {
            Message::Banner => {
                out.append(
                    "=== sd_video_hook v16.0 (retour + StretchRect BEFORE EndScene + correct offsets) ===",
                );
            },
            Message::Preloaded { module } => {
                out.append("[PRELOAD] d3d9.dll @ ");
                text::push_address(&mut out, *module);
            },
            Message::NoModule { error } => {
                out.append("[ERR] ");
                out.append(error.as_str());
            },
            Message::Module { module } => {
                out.append("[MOD] d3d9.dll @ ");
                text::push_address(&mut out, *module);
            },
            Message::CreatorHooked { creator } => {
                match creator {
                    Creator::Direct3DCreate9 => {
                        out.append("[OK] Direct3DCreate9 hooked");
                    },
                    Creator::Direct3DCreate9Ex => {
                        out.append("[OK] Direct3DCreate9Ex hooked");
                    },
                }
            },
            Message::Heartbeat { tick, captured, surface, forced } => {
                out.append("[STATE] tick=");
                text::push_decimal(&mut out, *tick as u64);
                out.append(" dev=");
                text::push_truth(&mut out, *captured);
                out.append(" rt=0x");
                text::push_hexadecimal(&mut out, *surface as u64);
                out.append(" forced=");
                text::push_decimal(&mut out, *forced as u64);
            },
            Message::RootCreated { object } => {
                out.append("[D3D9] call, result=");
                text::push_address(&mut out, *object);
            },
            Message::TableCopied => {
                out.append("[VT-COPY] IDirect3D9 vtable copied");
            },
            Message::DeviceCreated { status, device } => {
                out.append("[CreateDevice] hr=0x");
                text::push_bits(&mut out, *status);
                out.append(" out=");
                text::push_address(&mut out, *device);
            },
            Message::DeviceHooked { hook } => {
                match hook {
                    DeviceHook::EndScene => {
                        out.append("[OK] EndScene hooked");
                    },
                    DeviceHook::SetRenderTarget => {
                        out.append("[OK] SetRT hooked");
                    },
                    DeviceHook::SetRenderState => {
                        out.append("[OK] SetRenderState hooked");
                    },
                }
            },
            Message::HooksInstalled { device } => {
                out.append("[DEV] ");
                text::push_address(&mut out, *device);
                out.append(" — hooks installed");
            },
            Message::RenderTarget { n, surface, width, height, format, video } => {
                out.append("[SRT] #");
                text::push_decimal(&mut out, *n as u64);
                out.append(": ");
                text::push_address(&mut out, *surface);
                out.append(" ");
                text::push_decimal(&mut out, *width as u64);
                out.append("x");
                text::push_decimal(&mut out, *height as u64);
                out.append(" fmt=0x");
                text::push_hexadecimal(&mut out, *format as u64);
                out.append(" video=");
                text::push_truth(&mut out, *video);
            },
            Message::VideoSurface { surface } => {
                out.append("[SRT] video surface ");
                text::push_address(&mut out, *surface);
            },
            Message::ForcedDraw { n, status } => {
                out.append("[FORCE-RS] #");
                text::push_decimal(&mut out, *n as u64);
                out.append(" hr=0x");
                text::push_bits(&mut out, *status);
            },
            Message::FrameEnded { n } => {
                out.append("[ES] #");
                text::push_decimal(&mut out, *n as u64);
            },
        }
        assert(Seq::<char>::empty() + self.spec_text() =~= self.spec_text());
        assert(out@ =~= self.spec_text());
        out
    }
}

} // verus!
