//! A thin resource-management layer over the OpenGL object model: shaders,
//! programs, buffers, vertex arrays, textures and uniforms.
//!
//! The layer decides which driver calls an operation consists of, with which
//! arguments and in which order, and what the driver's answers mean. It makes
//! no call itself: see [`driver`].

use vstd::prelude::*;

pub mod buffer;
pub mod draw;
pub mod driver;
pub mod error;
pub mod handle;
pub mod log;
pub mod pixels;
pub mod program;
pub mod shader;
pub mod texture;
pub mod uniform;

verus! {

use crate::driver::{calls, Call, Command, COLOR_BUFFER_BIT};

/// The calls that fetch the driver's pending error code. The code is the
/// answer of the single call and is passed on as it is.
pub fn get_error() -> (batch: Vec<Command>)
    ensures
        calls(batch@) == seq![Call::GetError],
{
    let mut batch: Vec<Command> = Vec::new();
    batch.push(Command::GetError);
    batch
}

/// The calls that clear the active colour buffer to the configured clear colour.
pub fn clear() -> (batch: Vec<Command>)
    ensures
        calls(batch@) == seq![Call::Clear { mask: COLOR_BUFFER_BIT }],
{
    let mut batch: Vec<Command> = Vec::new();
    batch.push(Command::Clear { mask: COLOR_BUFFER_BIT });
    batch
}

} // verus!
