//! Draw calls.

use vstd::prelude::*;

verus! {

use crate::driver::{calls, Call, Command};
use crate::error::{Error, Failure};

/// The call that draws `count` vertices, from vertex `first` on, as
/// primitives of kind `mode`, from the vertex array, program and textures
/// that are bound. Fails with `InvalidArgument` when `first` or `count`
/// exceeds `i32::MAX`, the most that the driver can be told.
pub fn arrays(mode: u32, first: usize, count: usize) -> (batch: Result<Vec<Command>, Error>)
    ensures
        match batch {
            Ok(batch) => {
                &&& first <= i32::MAX
                &&& count <= i32::MAX
                &&& calls(batch@) == seq![
                    Call::DrawArrays { mode, first: first as i32, count: count as i32 },
                ]
            },
            Err(error) => {
                &&& first > i32::MAX || count > i32::MAX
                &&& error@ == Failure::InvalidArgument
            },
        },
{
    if first > 0x7FFF_FFFF || count > 0x7FFF_FFFF {
        return Err(Error::InvalidArgument);
    }
    let mut batch: Vec<Command> = Vec::new();
    batch.push(Command::DrawArrays { mode, first: first as i32, count: count as i32 });
    Ok(batch)
}

} // verus!
