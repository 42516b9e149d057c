//! The narrow waist between the layer and the graphics driver.
//!
//! Nothing here talks to the driver. Every operation of the layer answers with
//! the driver calls to make, as [`Command`] values in the order in which they
//! are to be made, and where a call has an answer that decides what follows,
//! with a stage value that takes that answer and says how to go on. The caller
//! owns the rendering context, makes the calls and hands the answers back.

use vstd::prelude::*;

verus! {

/// Mask bit of the colour buffer in a clear.
pub const COLOR_BUFFER_BIT: u32 = 0x4000;

/// Shader parameter: whether the last compile succeeded.
pub const COMPILE_STATUS: u32 = 0x8B81;

/// Program parameter: whether the last link succeeded.
pub const LINK_STATUS: u32 = 0x8B82;

/// Shader or program parameter: length of the diagnostic log, terminator included.
pub const INFO_LOG_LENGTH: u32 = 0x8B84;

/// Buffer target that vertex attributes are sourced from.
pub const ARRAY_BUFFER: u32 = 0x8892;

/// Component type: 32-bit floating point.
pub const FLOAT: u32 = 0x1406;

/// Component type: unsigned 8-bit integer.
pub const UNSIGNED_BYTE: u32 = 0x1401;

/// Texture target: a single two-dimensional image.
pub const TEXTURE_2D: u32 = 0x0DE1;

/// Texture target: a stack of two-dimensional images.
pub const TEXTURE_2D_ARRAY: u32 = 0x8C1A;

/// Pixel format: red, green, blue, alpha.
pub const RGBA: u32 = 0x1908;

/// Storage format: red, green, blue, alpha, eight bits each.
pub const RGBA8: u32 = 0x8058;

/// Texture parameter: the filter used when a texel covers more than a pixel.
pub const TEXTURE_MAG_FILTER: u32 = 0x2800;

/// Texture parameter: the filter used when a texel covers less than a pixel.
pub const TEXTURE_MIN_FILTER: u32 = 0x2801;

/// Filter: the nearest texel.
pub const NEAREST: u32 = 0x2600;

/// Filter: the weighted average of the four nearest texels.
pub const LINEAR: u32 = 0x2601;

/// The status value with which the driver reports success.
pub const STATUS_TRUE: i32 = 1;

/// One call into the driver, with the arguments to pass.
///
/// Calls that request a single object name (`GenBuffers`, `GenVertexArrays`,
/// `GenTextures`) and uniform writes always carry a count of one, so none is
/// recorded. Floating-point components are carried as their IEEE 754
/// single-precision bit patterns.
#[derive(Debug, PartialEq, Eq)]
pub enum Command {
    GetError,
    Clear { mask: u32 },
    CreateShader { kind: u32 },
    /// Submit `source` as the only string of the shader, with its exact
    /// length in bytes.
    ShaderSource { shader: u32, source: String },
    CompileShader { shader: u32 },
    GetShaderiv { shader: u32, parameter: u32 },
    /// Fetch the log into a buffer of `capacity` bytes; the bytes of that
    /// buffer are the answer, the length written is not asked for.
    GetShaderInfoLog { shader: u32, capacity: i32 },
    CreateProgram,
    AttachShader { program: u32, shader: u32 },
    DetachShader { program: u32, shader: u32 },
    LinkProgram { program: u32 },
    GetProgramiv { program: u32, parameter: u32 },
    /// As `GetShaderInfoLog`, for a program.
    GetProgramInfoLog { program: u32, capacity: i32 },
    UseProgram { program: u32 },
    DeleteProgram { program: u32 },
    GenBuffers,
    BindBuffer { target: u32, buffer: u32 },
    /// Upload `length` bytes from the start of the caller's data block.
    BufferData { target: u32, length: isize, usage: u32 },
    GenVertexArrays,
    BindVertexArray { array: u32 },
    EnableVertexAttribArray { index: u32 },
    VertexAttribPointer {
        index: u32,
        size: i32,
        component: u32,
        normalized: bool,
        stride: i32,
        offset: usize,
    },
    GenTextures,
    BindTexture { target: u32, texture: u32 },
    TexParameteri { target: u32, parameter: u32, value: u32 },
    TexImage2D {
        target: u32,
        level: i32,
        internal_format: u32,
        width: i32,
        height: i32,
        border: i32,
        format: u32,
        component: u32,
        pixels: Vec<u8>,
    },
    GetUniformLocation { program: u32, name: String },
    Uniform2fv { location: i32, x: u32, y: u32 },
    Uniform3fv { location: i32, x: u32, y: u32, z: u32 },
    DrawArrays { mode: u32, first: i32, count: i32 },
}

/// The mathematical content of a [`Command`]: the same call, with text and
/// pixel data as sequences.
pub enum Call {
    GetError,
    Clear { mask: u32 },
    CreateShader { kind: u32 },
    ShaderSource { shader: u32, source: Seq<char> },
    CompileShader { shader: u32 },
    GetShaderiv { shader: u32, parameter: u32 },
    GetShaderInfoLog { shader: u32, capacity: i32 },
    CreateProgram,
    AttachShader { program: u32, shader: u32 },
    DetachShader { program: u32, shader: u32 },
    LinkProgram { program: u32 },
    GetProgramiv { program: u32, parameter: u32 },
    GetProgramInfoLog { program: u32, capacity: i32 },
    UseProgram { program: u32 },
    DeleteProgram { program: u32 },
    GenBuffers,
    BindBuffer { target: u32, buffer: u32 },
    BufferData { target: u32, length: isize, usage: u32 },
    GenVertexArrays,
    BindVertexArray { array: u32 },
    EnableVertexAttribArray { index: u32 },
    VertexAttribPointer {
        index: u32,
        size: i32,
        component: u32,
        normalized: bool,
        stride: i32,
        offset: usize,
    },
    GenTextures,
    BindTexture { target: u32, texture: u32 },
    TexParameteri { target: u32, parameter: u32, value: u32 },
    TexImage2D {
        target: u32,
        level: i32,
        internal_format: u32,
        width: i32,
        height: i32,
        border: i32,
        format: u32,
        component: u32,
        pixels: Seq<u8>,
    },
    GetUniformLocation { program: u32, name: Seq<char> },
    Uniform2fv { location: i32, x: u32, y: u32 },
    Uniform3fv { location: i32, x: u32, y: u32, z: u32 },
    DrawArrays { mode: u32, first: i32, count: i32 },
}

impl View for Command {
    type V = Call;

    open spec fn view(&self) -> Call {
        match *self {
            Command::GetError => Call::GetError,
            Command::Clear { mask } => Call::Clear { mask },
            Command::CreateShader { kind } => Call::CreateShader { kind },
            Command::ShaderSource { shader, source } => Call::ShaderSource {
                shader,
                source: source@,
            },
            Command::CompileShader { shader } => Call::CompileShader { shader },
            Command::GetShaderiv { shader, parameter } => Call::GetShaderiv { shader, parameter },
            Command::GetShaderInfoLog { shader, capacity } => Call::GetShaderInfoLog {
                shader,
                capacity,
            },
            Command::CreateProgram => Call::CreateProgram,
            Command::AttachShader { program, shader } => Call::AttachShader { program, shader },
            Command::DetachShader { program, shader } => Call::DetachShader { program, shader },
            Command::LinkProgram { program } => Call::LinkProgram { program },
            Command::GetProgramiv { program, parameter } => Call::GetProgramiv {
                program,
                parameter,
            },
            Command::GetProgramInfoLog { program, capacity } => Call::GetProgramInfoLog {
                program,
                capacity,
            },
            Command::UseProgram { program } => Call::UseProgram { program },
            Command::DeleteProgram { program } => Call::DeleteProgram { program },
            Command::GenBuffers => Call::GenBuffers,
            Command::BindBuffer { target, buffer } => Call::BindBuffer { target, buffer },
            Command::BufferData { target, length, usage } => Call::BufferData {
                target,
                length,
                usage,
            },
            Command::GenVertexArrays => Call::GenVertexArrays,
            Command::BindVertexArray { array } => Call::BindVertexArray { array },
            Command::EnableVertexAttribArray { index } => Call::EnableVertexAttribArray { index },
            Command::VertexAttribPointer {
                index,
                size,
                component,
                normalized,
                stride,
                offset,
            } => Call::VertexAttribPointer { index, size, component, normalized, stride, offset },
            Command::GenTextures => Call::GenTextures,
            Command::BindTexture { target, texture } => Call::BindTexture { target, texture },
            Command::TexParameteri { target, parameter, value } => Call::TexParameteri {
                target,
                parameter,
                value,
            },
            Command::TexImage2D {
                target,
                level,
                internal_format,
                width,
                height,
                border,
                format,
                component,
                pixels,
            } => Call::TexImage2D {
                target,
                level,
                internal_format,
                width,
                height,
                border,
                format,
                component,
                pixels: pixels@,
            },
            Command::GetUniformLocation { program, name } => Call::GetUniformLocation {
                program,
                name: name@,
            },
            Command::Uniform2fv { location, x, y } => Call::Uniform2fv { location, x, y },
            Command::Uniform3fv { location, x, y, z } => Call::Uniform3fv { location, x, y, z },
            Command::DrawArrays { mode, first, count } => Call::DrawArrays { mode, first, count },
        }
    }
}

/// What the last call of a batch handed back.
#[derive(Debug, PartialEq, Eq)]
pub enum Reply {
    /// The call has no answer.
    Nothing,
    /// An object name, or an error code.
    Name(u32),
    /// An integer parameter, or a uniform location.
    Value(i32),
    /// The content of the buffer that the call filled.
    Bytes(Vec<u8>),
}

/// The mathematical content of a [`Reply`].
pub enum Answer {
    Nothing,
    Name(u32),
    Value(i32),
    Bytes(Seq<u8>),
}

impl View for Reply {
    type V = Answer;

    open spec fn view(&self) -> Answer {
        match *self {
            Reply::Nothing => Answer::Nothing,
            Reply::Name(name) => Answer::Name(name),
            Reply::Value(value) => Answer::Value(value),
            Reply::Bytes(bytes) => Answer::Bytes(bytes@),
        }
    }
}

/// The calls that a list of commands stands for, in order.
pub open spec fn calls(commands: Seq<Command>) -> Seq<Call> {
    Seq::new(commands.len(), |i: int| commands[i]@)
}

} // verus!
