//! The vocabulary spoken between the compositor and its host.
//!
//! A [`Command`] names exactly one call on the host's document, canvas or
//! rendering context, with the arguments of that call. The host owns every
//! handle (element, canvas, context, shaders, program, buffers, texture,
//! locations); commands refer to them by role. A [`Reply`] is the host's
//! answer to one command.

use vstd::prelude::*;

verus! {

/// The two programmable stages of the pipeline; each names the shader
/// object of its stage.
#[derive(Clone, Copy, Debug, PartialEq, Eq)]
pub enum ShaderStage {
    Vertex,
    Fragment,
}

/// The two per-vertex inputs of the quad; each names its slot in the
/// program and the buffer that feeds it.
#[derive(Clone, Copy, Debug, PartialEq, Eq)]
pub enum Attribute {
    /// Clip-space position, three components per vertex.
    Position,
    /// Texture coordinate, two components per vertex.
    TextureCoord,
}

/// One call for the host to perform.
///
/// Unless a variant says otherwise the call returns nothing and the host
/// answers [`Reply::Done`]. Where a variant asks for [`Reply::Obtained`]
/// or for a [`Reply::Flag`], any other answer counts as a refusal.
#[derive(Clone, Copy, Debug, PartialEq, Eq)]
pub enum Command<'a> {
    /// Look up the element called `id` in the document. Answer:
    /// [`Reply::Obtained`] or [`Reply::Missing`].
    FindElement { id: &'a str },
    /// Narrow the element to a canvas. Answer: [`Reply::Obtained`], or
    /// [`Reply::Missing`] if the element is of another kind.
    AsCanvas,
    /// Ask the canvas for a context of the given kind. Answer:
    /// [`Reply::Obtained`], or [`Reply::Missing`] if the canvas raises an
    /// error or hands out nothing.
    GetContext { kind: &'a str },
    /// Narrow the context to a WebGL rendering context. Answer:
    /// [`Reply::Obtained`] or [`Reply::Missing`].
    AsRenderingContext,
    /// Create a shader object of `shader_type` and keep it as the shader of
    /// `stage`. Answer: [`Reply::Obtained`] or [`Reply::Missing`].
    CreateShader { stage: ShaderStage, shader_type: u32 },
    /// Set the source text of the shader of `stage`.
    ShaderSource { stage: ShaderStage, source: &'a str },
    /// Compile the shader of `stage`.
    CompileShader { stage: ShaderStage },
    /// Read a status `parameter` of the shader of `stage`. Answer:
    /// [`Reply::Flag`] with the value as a boolean, if it is one.
    GetShaderParameter { stage: ShaderStage, parameter: u32 },
    /// Read the compiler's log for the shader of `stage`. Answer:
    /// [`Reply::Text`].
    GetShaderInfoLog { stage: ShaderStage },
    /// Create the program object. Answer: [`Reply::Obtained`] or
    /// [`Reply::Missing`].
    CreateProgram,
    /// Attach the shader of `stage` to the program.
    AttachShader { stage: ShaderStage },
    /// Link the program.
    LinkProgram,
    /// Read a status `parameter` of the program. Answer: [`Reply::Flag`]
    /// with the value as a boolean, if it is one.
    GetProgramParameter { parameter: u32 },
    /// Read the linker's log for the program. Answer: [`Reply::Text`].
    GetProgramInfoLog,
    /// Look up the location of the program input called `name` and keep
    /// its index, `crate::gl::attribute_index` of the location, as the slot
    /// of `attribute`.
    GetAttribLocation { attribute: Attribute, name: &'a str },
    /// Look up the location of the uniform called `name` and keep it.
    /// Answer: [`Reply::Obtained`] or [`Reply::Missing`].
    GetUniformLocation { name: &'a str },
    /// Make the program the active one.
    UseProgram,
    /// Create the buffer that feeds `attribute`. Answer:
    /// [`Reply::Obtained`] or [`Reply::Missing`].
    CreateBuffer { attribute: Attribute },
    /// Bind the buffer of `attribute` to `target`.
    BindBuffer { target: u32, attribute: Attribute },
    /// Upload `data` to the buffer bound to `target`, each number as one
    /// 32-bit float, with the hint `usage`.
    BufferData { target: u32, data: &'a [i8], usage: u32 },
    /// Describe the bound array buffer to the slot of `attribute`: `size`
    /// components of `component_type` per vertex, `stride` bytes between
    /// vertices, starting `offset` bytes into the buffer.
    VertexAttribPointer {
        attribute: Attribute,
        size: i32,
        component_type: u32,
        normalized: bool,
        stride: i32,
        offset: i32,
    },
    /// Enable the slot of `attribute`.
    EnableVertexAttribArray { attribute: Attribute },
    /// Create the texture. Answer: [`Reply::Obtained`] or
    /// [`Reply::Missing`].
    CreateTexture,
    /// Bind the texture to `target`.
    BindTexture { target: u32 },
    /// Fill the image `level` of the texture bound to `target` with `width`
    /// by `height` pixels out of `pixels`, which holds them in `format`
    /// with channels of `pixel_type`; whatever the host returns, it answers
    /// [`Reply::Done`].
    TexImage2d {
        target: u32,
        level: i32,
        internal_format: i32,
        width: i32,
        height: i32,
        border: i32,
        format: u32,
        pixel_type: u32,
        pixels: &'a [u8],
    },
    /// Set the integer `parameter` of the texture bound to `target`.
    TexParameteri { target: u32, parameter: u32, value: i32 },
    /// Set the integer uniform whose location was kept to `value`.
    Uniform1i { value: i32 },
    /// Set the clear colour; every channel is a whole number that converts
    /// to a 32-bit float exactly.
    ClearColor { red: u8, green: u8, blue: u8, alpha: u8 },
    /// Clear the buffers of `mask`.
    Clear { mask: u32 },
    /// Draw `count` vertices, starting at vertex `first`, in `mode`,
    /// without an index buffer.
    DrawArrays { mode: u32, first: i32, count: i32 },
}

impl<'a> Command<'a> {
    /// Whether the call allocates an object on the graphics device.
    pub open spec fn creates_object(self) -> bool {
        self is CreateShader || self is CreateProgram || self is CreateBuffer
            || self is CreateTexture
    }

    /// Whether the call belongs to building the program out of compiled
    /// shaders.
    pub open spec fn links(self) -> bool {
        self is CreateProgram || self is AttachShader || self is LinkProgram
            || self is GetProgramParameter
    }

    /// Whether the call reads the log of a shader or of the program.
    pub open spec fn reads_log(self) -> bool {
        self is GetShaderInfoLog || self is GetProgramInfoLog
    }

    /// Whether the call reads a location out of the linked program.
    pub open spec fn locates(self) -> bool {
        self is GetAttribLocation || self is GetUniformLocation
    }
}

/// The host's answer to one command.
#[derive(Debug, PartialEq, Eq)]
pub enum Reply {
    /// The call returned nothing.
    Done,
    /// The call produced the object that was asked for.
    Obtained,
    /// The call produced no object.
    Missing,
    /// The status that was read, or `None` if the host's value is not a
    /// boolean.
    Flag(Option<bool>),
    /// The log that was read, or `None` if the host has none.
    Text(Option<String>),
}

} // verus!
