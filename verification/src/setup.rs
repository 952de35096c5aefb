//! The calls that set up and draw the quad.
//!
//! Setting up is one straight walk: the surface is acquired, the two shaders
//! are compiled, the program is linked and bound, the two vertex buffers and
//! the placeholder texture are uploaded, and the quad is drawn once. Each
//! part is a script of its own; [`setup_script`] is all of them in a row.

use vstd::prelude::*;
use crate::command::{Attribute, Command, ShaderStage};
use crate::error::Error;
use crate::gl::{
    ARRAY_BUFFER, COLOR_BUFFER_BIT, COMPILE_STATUS, FLOAT, FRAGMENT_SHADER, LINK_STATUS, NEAREST,
    RGBA, STATIC_DRAW, TEXTURE_2D, TEXTURE_MAG_FILTER, TEXTURE_MIN_FILTER, TRIANGLES,
    UNSIGNED_BYTE, VERTEX_SHADER,
};
use crate::quad::{
    PLACEHOLDER_PIXEL, PLACEHOLDER_SIDE, POSITION_COMPONENTS, QUAD_POSITIONS,
    QUAD_TEXTURE_COORDS, QUAD_VERTICES, TEXTURE_COMPONENTS,
};
use crate::session::{Session, SessionView};

verus! {

/// The kind of context asked of the canvas.
pub const CONTEXT_KIND: &'static str = "webgl";

/// The name of the position input in the vertex shader.
pub const POSITION_NAME: &'static str = "position";

/// The name of the texture-coordinate input in the vertex shader.
pub const TEXTURE_COORD_NAME: &'static str = "textureCoord";

/// The name of the sampler in the fragment shader.
pub const IMAGE_NAME: &'static str = "image";

/// The texture unit the sampler reads from.
pub const IMAGE_UNIT: i32 = 0;

/// The vertex shader: passes position and texture coordinate through.
pub const VERTEX_SHADER_SOURCE: &'static str = r#"
        attribute vec4 position;
        attribute vec2 textureCoord;

        varying highp vec2 vTextureCoord;

        void main(void) {
            gl_Position = position;
            vTextureCoord = textureCoord;
        }
    "#;

/// The fragment shader: samples the texture on the right half of the quad
/// and shows the texture coordinate as a colour on the left half.
pub const FRAGMENT_SHADER_SOURCE: &'static str = r#"
        varying highp vec2 vTextureCoord;

        uniform sampler2D image;

        void main(void) {
            if(vTextureCoord.x > 0.5) {
            gl_FragColor = texture2D(image, vTextureCoord);
            } else {
            gl_FragColor = vec4(vTextureCoord.x, vTextureCoord.y, 0.0, 1.0);
            }
        }
    "#;

/// The shader type of a stage.
pub open spec fn shader_type(stage: ShaderStage) -> u32 {
    match stage {
        ShaderStage::Vertex => VERTEX_SHADER,
        ShaderStage::Fragment => FRAGMENT_SHADER,
    }
}

/// The calls that acquire the drawing surface called `id`: find the
/// element, check that it is a canvas, get its context, check that the
/// context is for WebGL.
pub open spec fn acquisition_script<'a>(id: &'a str) -> Seq<Command<'a>> {
    seq![
        Command::FindElement { id },
        Command::AsCanvas,
        Command::GetContext { kind: CONTEXT_KIND },
        Command::AsRenderingContext,
    ]
}

/// The calls that compile the shader of `stage` from `source`: create the
/// object, set its source, compile, check the compile status.
pub open spec fn shader_script<'a>(stage: ShaderStage, source: &'a str) -> Seq<Command<'a>> {
    seq![
        Command::CreateShader { stage, shader_type: shader_type(stage) },
        Command::ShaderSource { stage, source },
        Command::CompileShader { stage },
        Command::GetShaderParameter { stage, parameter: COMPILE_STATUS },
    ]
}

/// The calls that link the two shaders into a program: create the object,
/// attach both shaders, link, check the link status.
pub open spec fn program_script<'a>() -> Seq<Command<'a>> {
    seq![
        Command::CreateProgram,
        Command::AttachShader { stage: ShaderStage::Vertex },
        Command::AttachShader { stage: ShaderStage::Fragment },
        Command::LinkProgram,
        Command::GetProgramParameter { parameter: LINK_STATUS },
    ]
}

/// The calls that look up the program's inputs and make the program the
/// active one.
pub open spec fn binding_script<'a>() -> Seq<Command<'a>> {
    seq![
        Command::GetAttribLocation { attribute: Attribute::Position, name: POSITION_NAME },
        Command::GetAttribLocation { attribute: Attribute::TextureCoord, name: TEXTURE_COORD_NAME },
        Command::GetUniformLocation { name: IMAGE_NAME },
        Command::UseProgram,
    ]
}

/// The calls that feed `attribute` from a buffer of its own: create the
/// buffer, bind it as the array buffer, upload `data` once and for all,
/// describe it as tightly packed floats, `size` for each vertex, and enable
/// the slot.
pub open spec fn upload_script<'a>(attribute: Attribute, data: &'a [i8], size: i32) -> Seq<
    Command<'a>,
> {
    seq![
        Command::CreateBuffer { attribute },
        Command::BindBuffer { target: ARRAY_BUFFER, attribute },
        Command::BufferData { target: ARRAY_BUFFER, data, usage: STATIC_DRAW },
        Command::VertexAttribPointer {
            attribute,
            size,
            component_type: FLOAT,
            normalized: false,
            stride: 0,
            offset: 0,
        },
        Command::EnableVertexAttribArray { attribute },
    ]
}

/// The calls that put the placeholder texture in place: create it, bind it,
/// fill it with its single pixel, sample it by the nearest texel both ways,
/// point the sampler at its unit.
pub open spec fn texture_script<'a>() -> Seq<Command<'a>> {
    seq![
        Command::CreateTexture,
        Command::BindTexture { target: TEXTURE_2D },
        Command::TexImage2d {
            target: TEXTURE_2D,
            level: 0,
            internal_format: RGBA as i32,
            width: PLACEHOLDER_SIDE,
            height: PLACEHOLDER_SIDE,
            border: 0,
            format: RGBA,
            pixel_type: UNSIGNED_BYTE,
            pixels: &PLACEHOLDER_PIXEL,
        },
        Command::TexParameteri {
            target: TEXTURE_2D,
            parameter: TEXTURE_MAG_FILTER,
            value: NEAREST as i32,
        },
        Command::TexParameteri {
            target: TEXTURE_2D,
            parameter: TEXTURE_MIN_FILTER,
            value: NEAREST as i32,
        },
        Command::Uniform1i { value: IMAGE_UNIT },
    ]
}

/// The calls that draw: clear the colour buffer to opaque black, then draw
/// all vertices of the quad as triangles.
pub open spec fn draw_script<'a>() -> Seq<Command<'a>> {
    seq![
        Command::ClearColor { red: 0, green: 0, blue: 0, alpha: 1 },
        Command::Clear { mask: COLOR_BUFFER_BIT },
        Command::DrawArrays { mode: TRIANGLES, first: 0, count: QUAD_VERTICES },
    ]
}

/// Every call of a successful setup on the element called `id`, in order.
pub open spec fn setup_script<'a>(id: &'a str) -> Seq<Command<'a>> {
    acquisition_script(id) + shader_script(ShaderStage::Vertex, VERTEX_SHADER_SOURCE)
        + shader_script(ShaderStage::Fragment, FRAGMENT_SHADER_SOURCE) + program_script()
        + binding_script() + upload_script(
        Attribute::Position,
        &QUAD_POSITIONS,
        POSITION_COMPONENTS,
    ) + upload_script(Attribute::TextureCoord, &QUAD_TEXTURE_COORDS, TEXTURE_COMPONENTS)
        + texture_script() + draw_script()
}

/// Appends [`acquisition_script`].
fn push_acquisition<'a>(script: &mut Vec<Command<'a>>, id: &'a str)
    ensures
        final(script)@ == old(script)@ + acquisition_script(id),
{
    script.push(Command::FindElement { id });
    script.push(Command::AsCanvas);
    script.push(Command::GetContext { kind: CONTEXT_KIND });
    script.push(Command::AsRenderingContext);
}

/// Appends [`shader_script`].
fn push_shader<'a>(script: &mut Vec<Command<'a>>, stage: ShaderStage, source: &'a str)
    ensures
        final(script)@ == old(script)@ + shader_script(stage, source),
{
    let shader_type = match stage {
        ShaderStage::Vertex => VERTEX_SHADER,
        ShaderStage::Fragment => FRAGMENT_SHADER,
    };
    script.push(Command::CreateShader { stage, shader_type });
    script.push(Command::ShaderSource { stage, source });
    script.push(Command::CompileShader { stage });
    script.push(Command::GetShaderParameter { stage, parameter: COMPILE_STATUS });
}

/// Appends [`program_script`].
fn push_program<'a>(script: &mut Vec<Command<'a>>)
    ensures
        final(script)@ == old(script)@ + program_script(),
{
    script.push(Command::CreateProgram);
    script.push(Command::AttachShader { stage: ShaderStage::Vertex });
    script.push(Command::AttachShader { stage: ShaderStage::Fragment });
    script.push(Command::LinkProgram);
    script.push(Command::GetProgramParameter { parameter: LINK_STATUS });
}

/// Appends [`binding_script`].
fn push_binding<'a>(script: &mut Vec<Command<'a>>)
    ensures
        final(script)@ == old(script)@ + binding_script(),
{
    script.push(Command::GetAttribLocation { attribute: Attribute::Position, name: POSITION_NAME });
    script.push(
        Command::GetAttribLocation {
            attribute: Attribute::TextureCoord,
            name: TEXTURE_COORD_NAME,
        },
    );
    script.push(Command::GetUniformLocation { name: IMAGE_NAME });
    script.push(Command::UseProgram);
}

/// Appends [`upload_script`].
fn push_upload<'a>(script: &mut Vec<Command<'a>>, attribute: Attribute, data: &'a [i8], size: i32)
    ensures
        final(script)@ == old(script)@ + upload_script(attribute, data, size),
{
    script.push(Command::CreateBuffer { attribute });
    script.push(Command::BindBuffer { target: ARRAY_BUFFER, attribute });
    script.push(Command::BufferData { target: ARRAY_BUFFER, data, usage: STATIC_DRAW });
    script.push(
        Command::VertexAttribPointer {
            attribute,
            size,
            component_type: FLOAT,
            normalized: false,
            stride: 0,
            offset: 0,
        },
    );
    script.push(Command::EnableVertexAttribArray { attribute });
}

/// Appends [`texture_script`].
fn push_texture<'a>(script: &mut Vec<Command<'a>>)
    ensures
        final(script)@ == old(script)@ + texture_script(),
{
    script.push(Command::CreateTexture);
    script.push(Command::BindTexture { target: TEXTURE_2D });
    script.push(
        Command::TexImage2d {
            target: TEXTURE_2D,
            level: 0,
            internal_format: RGBA as i32,
            width: PLACEHOLDER_SIDE,
            height: PLACEHOLDER_SIDE,
            border: 0,
            format: RGBA,
            pixel_type: UNSIGNED_BYTE,
            pixels: &PLACEHOLDER_PIXEL,
        },
    );
    script.push(
        Command::TexParameteri {
            target: TEXTURE_2D,
            parameter: TEXTURE_MAG_FILTER,
            value: NEAREST as i32,
        },
    );
    script.push(
        Command::TexParameteri {
            target: TEXTURE_2D,
            parameter: TEXTURE_MIN_FILTER,
            value: NEAREST as i32,
        },
    );
    script.push(Command::Uniform1i { value: IMAGE_UNIT });
}

/// Appends [`draw_script`].
fn push_draw<'a>(script: &mut Vec<Command<'a>>)
    ensures
        final(script)@ == old(script)@ + draw_script(),
{
    script.push(Command::ClearColor { red: 0, green: 0, blue: 0, alpha: 1 });
    script.push(Command::Clear { mask: COLOR_BUFFER_BIT });
    script.push(Command::DrawArrays { mode: TRIANGLES, first: 0, count: QUAD_VERTICES });
}

/// Starts compiling the shader of `stage` from `source`.
///
/// The session creates the shader object, sets its source, compiles it and
/// checks its compile status. It succeeds if the status is `true`. It fails
/// with [`Error::ShaderCompileFailed`] otherwise: with a fixed text if the
/// host hands out no shader object, else with the compiler's log, or with
/// another fixed text if the host has no log.
pub fn compile_shader<'a>(stage: ShaderStage, source: &'a str) -> (session: Session<'a>)
    ensures
        session@ == SessionView::begin(shader_script(stage, source)),
{
    let mut script: Vec<Command<'a>> = Vec::new();
    push_shader(&mut script, stage, source);
    assert(script@ == shader_script(stage, source));
    Session::begin(script)
}

/// Starts linking the two compiled shaders into the program.
///
/// The session creates the program object, attaches the vertex and the
/// fragment shader, links and checks the link status. It succeeds if the
/// status is `true`. It fails with [`Error::ProgramLinkFailed`] otherwise:
/// with a fixed text if the host hands out no program object, else with the
/// linker's log, or with another fixed text if the host has no log.
pub fn link_program<'a>() -> (session: Session<'a>)
    ensures
        session@ == SessionView::begin(program_script()),
{
    let mut script: Vec<Command<'a>> = Vec::new();
    push_program(&mut script);
    assert(script@ == program_script());
    Session::begin(script)
}

/// Starts setting up and drawing the quad on the element called
/// `element_id`.
///
/// The session walks [`setup_script`]. It ends at the first call that
/// fails, with that call's error, and succeeds when the draw call has been
/// made.
pub fn initialise<'a>(element_id: &'a str) -> (session: Session<'a>)
    ensures
        session@ == SessionView::begin(setup_script(element_id)),
{
    let mut script: Vec<Command<'a>> = Vec::new();
    push_acquisition(&mut script, element_id);
    assert(script@ == acquisition_script(element_id));
    push_shader(&mut script, ShaderStage::Vertex, VERTEX_SHADER_SOURCE);
    push_shader(&mut script, ShaderStage::Fragment, FRAGMENT_SHADER_SOURCE);
    push_program(&mut script);
    push_binding(&mut script);
    push_upload(&mut script, Attribute::Position, &QUAD_POSITIONS, POSITION_COMPONENTS);
    push_upload(&mut script, Attribute::TextureCoord, &QUAD_TEXTURE_COORDS, TEXTURE_COMPONENTS);
    push_texture(&mut script);
    push_draw(&mut script);
    Session::begin(script)
}

/// Copies the input of the compositor. There is no input yet: nothing is
/// done.
pub fn copy() -> (outcome: Result<(), Error>)
    ensures
        outcome == Ok::<(), Error>(()),
{
    Ok(())
}

/// Renders the composited image to the output. Nothing is composited yet:
/// nothing is done.
pub fn render() -> (outcome: Result<(), Error>)
    ensures
        outcome == Ok::<(), Error>(()),
{
    Ok(())
}

} // verus!
