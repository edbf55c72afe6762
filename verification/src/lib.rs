//! Decision logic of a Direct3D 9 hook that makes the videos of a visual novel
//! visible again.
//!
//! The game decodes its videos into an offscreen render target and prepares
//! every state needed to show it, but on recent graphics cards it skips the
//! final draw call. The hook watches three device methods and issues that draw
//! call itself, once per frame.
//!
//! This crate holds everything the hook decides and everything it writes to its
//! log. It never touches the graphics device: each function takes what an
//! outside call returned and answers with what to do next.

pub mod capture;
pub mod d3d;
pub mod device;
pub mod frames;
pub mod history;
pub mod hooks;
pub mod lines;
pub mod logger;
pub mod message;
pub mod operations;
pub mod session;
pub mod text;
pub mod worker;
