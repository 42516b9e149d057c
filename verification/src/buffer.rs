//! Buffer objects and vertex arrays: uploading vertex data and describing how
//! it is laid out.

use vstd::prelude::*;

verus! {

use crate::driver::{calls, Call, Command, ARRAY_BUFFER, FLOAT};
use crate::error::{Error, Failure};
use crate::handle::Allocation;

/// The number of bytes that `count` values of type `T` take: the count times
/// the size of one value.
pub open spec fn byte_length<T>(count: nat) -> nat {
    count * vstd::layout::size_of::<T>()
}

/// The calls that bind `buffer` to `target` and upload `length` bytes to it.
pub open spec fn upload(target: u32, buffer: u32, usage: u32, length: nat) -> Seq<Call> {
    seq![
        Call::BindBuffer { target, buffer },
        Call::BufferData { target, length: length as isize, usage },
    ]
}

/// The component counts that an attribute can have.
pub open spec fn is_component_count(size: int) -> bool {
    1 <= size <= 4
}

/// The calls that make `buffer` the source of attribute `index` of vertex
/// array `array`, and leave no vertex array bound: the attribute is switched
/// on and reads `size` 32-bit floating-point components per vertex, not
/// normalised, tightly packed (a stride of 0 stands for that), from the start
/// of the buffer.
pub open spec fn description(array: u32, buffer: u32, index: u32, size: i32) -> Seq<Call> {
    seq![
        Call::BindVertexArray { array },
        Call::BindBuffer { target: ARRAY_BUFFER, buffer },
        Call::EnableVertexAttribArray { index },
        Call::VertexAttribPointer {
            index,
            size,
            component: FLOAT,
            normalized: false,
            stride: 0,
            offset: 0,
        },
        Call::BindVertexArray { array: 0 },
    ]
}

/// Requests a buffer object: the pending request and the call to make.
pub fn generate_buffer() -> (start: (Allocation, Vec<Command>))
    ensures
        start.0 == Allocation::Pending,
        calls(start.1@) == seq![Call::GenBuffers],
{
    let mut batch: Vec<Command> = Vec::new();
    batch.push(Command::GenBuffers);
    (Allocation::Pending, batch)
}

/// The call that binds buffer `id` to the target `kind`.
pub fn bind_buffer(id: u32, kind: u32) -> (batch: Vec<Command>)
    ensures
        calls(batch@) == seq![Call::BindBuffer { target: kind, buffer: id }],
{
    let mut batch: Vec<Command> = Vec::new();
    batch.push(Command::BindBuffer { target: kind, buffer: id });
    batch
}

/// The calls that bind buffer `id` to the target `kind` and upload the whole
/// of `data` to it; `draw_type` tells the driver how the data will be used.
/// Fails with `InvalidArgument` when the data is longer in bytes than the
/// driver can be told, that is, longer than `isize::MAX`.
pub fn set_target_data<T>(id: u32, kind: u32, draw_type: u32, data: &Vec<T>) -> (batch: Result<
    Vec<Command>,
    Error,
>)
    ensures
        match batch {
            Ok(batch) => {
                &&& byte_length::<T>(data@.len()) <= isize::MAX
                &&& calls(batch@) == upload(kind, id, draw_type, byte_length::<T>(data@.len()))
            },
            Err(error) => {
                &&& byte_length::<T>(data@.len()) > isize::MAX
                &&& error@ == Failure::InvalidArgument
            },
        },
{
    let length: usize = match data.len().checked_mul(core::mem::size_of::<T>()) {
        Some(length) => length,
        None => {
            return Err(Error::InvalidArgument);
        },
    };
    if length > isize::MAX as usize {
        return Err(Error::InvalidArgument);
    }
    let mut batch: Vec<Command> = Vec::new();
    batch.push(Command::BindBuffer { target: kind, buffer: id });
    batch.push(Command::BufferData { target: kind, length: length as isize, usage: draw_type });
    Ok(batch)
}

/// The calls that upload the whole of `data` to buffer `id` as vertex data:
/// [`set_target_data`] with the target that vertex attributes are sourced
/// from.
pub fn set_buffer_data<T>(id: u32, draw_type: u32, data: &Vec<T>) -> (batch: Result<
    Vec<Command>,
    Error,
>)
    ensures
        match batch {
            Ok(batch) => {
                &&& byte_length::<T>(data@.len()) <= isize::MAX
                &&& calls(batch@) == upload(
                    ARRAY_BUFFER,
                    id,
                    draw_type,
                    byte_length::<T>(data@.len()),
                )
            },
            Err(error) => {
                &&& byte_length::<T>(data@.len()) > isize::MAX
                &&& error@ == Failure::InvalidArgument
            },
        },
{
    set_target_data(id, ARRAY_BUFFER, draw_type, data)
}

/// Requests a vertex array object: the pending request and the call to make.
pub fn generate_vertex_array() -> (start: (Allocation, Vec<Command>))
    ensures
        start.0 == Allocation::Pending,
        calls(start.1@) == seq![Call::GenVertexArrays],
{
    let mut batch: Vec<Command> = Vec::new();
    batch.push(Command::GenVertexArrays);
    (Allocation::Pending, batch)
}

/// The call that binds vertex array `id`.
pub fn bind_array(id: u32) -> (batch: Vec<Command>)
    ensures
        calls(batch@) == seq![Call::BindVertexArray { array: id }],
{
    let mut batch: Vec<Command> = Vec::new();
    batch.push(Command::BindVertexArray { array: id });
    batch
}

/// The calls that describe attribute `index` of vertex array `id` as `size`
/// floating-point components per vertex, read from `buffer`. Fails with
/// `InvalidArgument` for a `size` that is not 1, 2, 3 or 4. Describing an
/// attribute again replaces what was described before.
pub fn set_vertex_array_pointer(id: u32, buffer: u32, index: u32, size: i32) -> (batch: Result<
    Vec<Command>,
    Error,
>)
    ensures
        match batch {
            Ok(batch) => {
                &&& is_component_count(size as int)
                &&& calls(batch@) == description(id, buffer, index, size)
            },
            Err(error) => {
                &&& !is_component_count(size as int)
                &&& error@ == Failure::InvalidArgument
            },
        },
{
    if size < 1 || size > 4 {
        return Err(Error::InvalidArgument);
    }
    let mut batch: Vec<Command> = Vec::new();
    batch.push(Command::BindVertexArray { array: id });
    batch.push(Command::BindBuffer { target: ARRAY_BUFFER, buffer });
    batch.push(Command::EnableVertexAttribArray { index });
    batch.push(
        Command::VertexAttribPointer {
            index,
            size,
            component: FLOAT,
            normalized: false,
            stride: 0,
            offset: 0,
        },
    );
    batch.push(Command::BindVertexArray { array: 0 });
    Ok(batch)
}

/// The distance in bytes between two vertices of an attribute that was
/// described with `size` components: what the driver infers from a stride of
/// 0. Fails with `InvalidArgument` for a `size` that is not 1, 2, 3 or 4.
pub fn packed_stride(size: i32) -> (stride: Result<i32, Error>)
    ensures
        match stride {
            Ok(stride) => is_component_count(size as int) && stride == 4 * size,
            Err(error) => !is_component_count(size as int) && error@ == Failure::InvalidArgument,
        },
{
    if size < 1 || size > 4 {
        return Err(Error::InvalidArgument);
    }
    Ok(4 * size)
}

} // verus!
