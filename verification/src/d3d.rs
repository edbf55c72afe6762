//! The parts of the Direct3D 9 binary interface that the hook relies on: which
//! method sits in which slot, how a surface describes itself, and the quad that
//! shows a video.

use vstd::prelude::*;

verus! {

/// Number of slots in the method table of `IDirect3D9` that a copy takes over.
pub const TABLE_SLOTS: usize = 32;

/// Slot of `IDirect3D9::CreateDevice`.
pub const SLOT_CREATE_DEVICE: usize = 16;

/// Slot of `IDirect3DDevice9::SetRenderTarget`.
pub const SLOT_SET_RENDER_TARGET: usize = 37;

/// Slot of `IDirect3DDevice9::EndScene`.
pub const SLOT_END_SCENE: usize = 42;

/// Slot of `IDirect3DDevice9::SetRenderState`.
pub const SLOT_SET_RENDER_STATE: usize = 57;

/// Slot of `IDirect3DDevice9::DrawPrimitiveUP`.
pub const SLOT_DRAW_PRIMITIVE_UP: usize = 83;

/// Slot of `IDirect3DSurface9::GetDesc`.
pub const SLOT_GET_DESC: usize = 12;

/// Bytes of one slot in the 32-bit process of the game. Also the number of bytes
/// whose page protection is lifted to exchange an object's table.
pub const SLOT_BYTES: usize = 4;

/// The render state that the game's video engine sets first while it prepares a
/// video frame.
pub const VIDEO_SETUP_STATE: u32 = 0xd1;

/// Width of the game's window, and of the videos it plays.
pub const WINDOW_WIDTH: u32 = 640;

/// Height of the game's window.
pub const WINDOW_HEIGHT: u32 = 480;

/// Height of the videos that the game plays.
pub const VIDEO_HEIGHT: u32 = 348;

/// Width of the second kind of video surface.
pub const WIDE_VIDEO_WIDTH: u32 = 768;

/// Height of the second kind of video surface.
pub const WIDE_VIDEO_HEIGHT: u32 = 512;

/// The pixel format code `UYVY`.
pub const FORMAT_UYVY: u32 = 0x59565955;

/// The pixel format code `YUY2`.
pub const FORMAT_YUY2: u32 = 0x32595559;

/// The primitive type of a triangle strip.
pub const TRIANGLE_STRIP: u32 = 5;

/// The three device methods that are watched.
#[derive(Debug, Clone, Copy, PartialEq, Eq, Structural)]
pub enum DeviceHook {
    EndScene,
    SetRenderTarget,
    SetRenderState,
}

impl DeviceHook {
    /// Slot of the method in the device's table.
    pub open spec fn spec_slot(self) -> usize {
        match self {
            DeviceHook::EndScene => SLOT_END_SCENE,
            DeviceHook::SetRenderTarget => SLOT_SET_RENDER_TARGET,
            DeviceHook::SetRenderState => SLOT_SET_RENDER_STATE,
        }
    }

    /// Slot of the method in the device's table.
    pub fn slot(self) -> (res: usize)
        ensures
            res == self.spec_slot(),
    {
        match self {
            DeviceHook::EndScene => SLOT_END_SCENE,
            DeviceHook::SetRenderTarget => SLOT_SET_RENDER_TARGET,
            DeviceHook::SetRenderState => SLOT_SET_RENDER_STATE,
        }
    }

    /// The method that is hooked after this one, if any is left.
    pub open spec fn spec_following(self) -> Option<DeviceHook> {
        match self {
            DeviceHook::EndScene => Some(DeviceHook::SetRenderTarget),
            DeviceHook::SetRenderTarget => Some(DeviceHook::SetRenderState),
            DeviceHook::SetRenderState => None,
        }
    }

    /// The method that is hooked after this one, if any is left.
    pub fn following(self) -> (res: Option<DeviceHook>)
        ensures
            res == self.spec_following(),
    {
        match self {
            DeviceHook::EndScene => Some(DeviceHook::SetRenderTarget),
            DeviceHook::SetRenderTarget => Some(DeviceHook::SetRenderState),
            DeviceHook::SetRenderState => None,
        }
    }
}

/// The two functions of `d3d9.dll` that create the root object.
#[derive(Debug, Clone, Copy, PartialEq, Eq, Structural)]
pub enum Creator {
    Direct3DCreate9,
    Direct3DCreate9Ex,
}

impl Creator {
    /// The name under which `d3d9.dll` offers the function.
    pub open spec fn spec_symbol(self) -> Seq<char> {
        match self {
            Creator::Direct3DCreate9 => "Direct3DCreate9"@,
            Creator::Direct3DCreate9Ex => "Direct3DCreate9Ex"@,
        }
    }

    /// The name under which `d3d9.dll` offers the function.
    pub fn symbol(self) -> (res: &'static str)
        ensures
            res@ == self.spec_symbol(),
    {
        match self {
            Creator::Direct3DCreate9 => "Direct3DCreate9",
            Creator::Direct3DCreate9Ex => "Direct3DCreate9Ex",
        }
    }
}

/// Width, height and format out of the reply of `GetDesc`: its status and the
/// words it filled in. Without a reply (the surface is null) and after a failed
/// call everything is zero.
pub open spec fn described(reply: Option<(i32, [u32; 8])>) -> (u32, u32, u32) {
    match reply {
        Some((status, desc)) => if status == 0 {
            (desc@[6], desc@[7], desc@[0])
        } else {
            (0, 0, 0)
        },
        None => (0, 0, 0),
    }
}

/// Width, height and format of a surface, from the reply of its `GetDesc`.
pub fn describe_rt(reply: Option<(i32, [u32; 8])>) -> (res: (u32, u32, u32))
    ensures
        res == described(reply),
{
    match reply {
        Some((status, desc)) => {
            if status == 0 {
                (desc[6], desc[7], desc[0])
            } else {
                (0, 0, 0)
            }
        },
        None => (0, 0, 0),
    }
}

/// A surface counts as a video surface when it has the size of one, or a pixel
/// format that only video decoders write.
pub open spec fn is_video(width: u32, height: u32, format: u32) -> bool {
    ||| width == WINDOW_WIDTH && height == VIDEO_HEIGHT
    ||| width == WIDE_VIDEO_WIDTH && height == WIDE_VIDEO_HEIGHT
    ||| format == FORMAT_UYVY
    ||| format == FORMAT_YUY2
}

/// Tells whether a surface of this size and format is a video surface.
pub fn looks_video(width: u32, height: u32, format: u32) -> (res: bool)
    ensures
        res == is_video(width, height, format),
{
    (width == WINDOW_WIDTH && height == VIDEO_HEIGHT) || (width == WIDE_VIDEO_WIDTH && height
        == WIDE_VIDEO_HEIGHT) || format == FORMAT_UYVY || format == FORMAT_YUY2
}

/// The back buffer and the surface of the user interface, which the game binds in
/// turn with the video surface, are not taken for video surfaces unless their
/// pixel format is one of the two video formats.
pub proof fn law_window_and_interface_are_not_video(format: u32)
    requires
        format != FORMAT_UYVY,
        format != FORMAT_YUY2,
    ensures
        !is_video(WINDOW_WIDTH, WINDOW_HEIGHT, format),
        !is_video(1024, 64, format),
{
}

/// A corner of the quad: a position in window coordinates and a position in the
/// texture. All coordinates are whole numbers.
#[derive(Debug, Clone, Copy, PartialEq, Eq, Structural)]
pub struct Vertex {
    pub x: u32,
    pub y: u32,
    pub z: u32,
    pub rhw: u32,
    pub u: u32,
    pub v: u32,
}

/// First line of the window that the quad covers.
pub const QUAD_TOP: u32 = 66;

/// The line of the window at which the quad ends.
pub const QUAD_BOTTOM: u32 = 414;

/// The corner at texture position (`u`, `v`), each 0 or 1.
pub open spec fn corner(u: u32, v: u32) -> Vertex {
    Vertex {
        x: if u == 0 {
            0
        } else {
            WINDOW_WIDTH
        },
        y: if v == 0 {
            QUAD_TOP
        } else {
            QUAD_BOTTOM
        },
        z: 0,
        rhw: 1,
        u,
        v,
    }
}

/// The corners in the order of a triangle strip.
pub open spec fn spec_quad() -> Seq<Vertex> {
    seq![corner(0, 0), corner(1, 0), corner(0, 1), corner(1, 1)]
}

/// The quad that shows a whole video.
pub fn quad() -> (res: [Vertex; 4])
    ensures
        res@ == spec_quad(),
{
    let res: [Vertex; 4] = [
        Vertex { x: 0, y: QUAD_TOP, z: 0, rhw: 1, u: 0, v: 0 },
        Vertex { x: WINDOW_WIDTH, y: QUAD_TOP, z: 0, rhw: 1, u: 1, v: 0 },
        Vertex { x: 0, y: QUAD_BOTTOM, z: 0, rhw: 1, u: 0, v: 1 },
        Vertex { x: WINDOW_WIDTH, y: QUAD_BOTTOM, z: 0, rhw: 1, u: 1, v: 1 },
    ];
    assert(res@ =~= spec_quad());
    res
}

/// One call of `DrawPrimitiveUP`.
#[derive(Debug, Clone, Copy, PartialEq, Eq)]
pub struct DrawCall {
    /// Slot of the method in the device's table.
    pub slot: usize,
    /// Kind of primitive.
    pub primitive: u32,
    /// Number of primitives.
    pub count: u32,
    /// The vertices.
    pub vertices: [Vertex; 4],
    /// Bytes from one vertex to the next.
    pub stride: u32,
}

impl DrawCall {
    /// The call draws the quad as a strip of two triangles.
    pub open spec fn shows_video(self) -> bool {
        &&& self.slot == SLOT_DRAW_PRIMITIVE_UP
        &&& self.primitive == TRIANGLE_STRIP
        &&& self.count == 2
        &&& self.vertices@ == spec_quad()
        &&& self.stride == 24
    }

    /// The call that shows a video.
    pub fn video() -> (res: DrawCall)
        ensures
            res.shows_video(),
    {
        DrawCall {
            slot: SLOT_DRAW_PRIMITIVE_UP,
            primitive: TRIANGLE_STRIP,
            count: 2,
            vertices: quad(),
            stride: 24,
        }
    }
}

/// A strip has two vertices more than triangles, and a vertex is six numbers of
/// four bytes each: the draw call names exactly the vertices it carries.
pub proof fn law_strip_uses_every_vertex(call: DrawCall)
    requires
        call.shows_video(),
    ensures
        call.vertices@.len() == call.count + 2,
        call.stride == 6 * 4,
{
}

/// The quad is as large as a video, spans the window's width, leaves as much
/// room above as below, and shows the whole texture.
pub proof fn law_quad_is_centred()
    ensures
        QUAD_BOTTOM - QUAD_TOP == VIDEO_HEIGHT,
        QUAD_TOP == WINDOW_HEIGHT - QUAD_BOTTOM,
        forall|i: int|
            #![trigger spec_quad()[i]]
            0 <= i < 4 ==> {
                let p = spec_quad()[i];
                &&& p.x == p.u * WINDOW_WIDTH
                &&& p.y == QUAD_TOP + p.v * VIDEO_HEIGHT
                &&& p.u == i % 2
                &&& p.v == i / 2
            },
{
    assert forall|i: int| #![trigger spec_quad()[i]] 0 <= i < 4 implies {
        let p = spec_quad()[i];
        &&& p.x == p.u * WINDOW_WIDTH
        &&& p.y == QUAD_TOP + p.v * VIDEO_HEIGHT
        &&& p.u == i % 2
        &&& p.v == i / 2
    } by {
        assert(i == 0 || i == 1 || i == 2 || i == 3);
    }
}

} // verus!
