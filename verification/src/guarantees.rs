//! What holds of every run of the sessions of this crate, whatever the host
//! answers.

use vstd::prelude::*;
use crate::command::{Attribute, Command, Reply, ShaderStage};
use crate::gl::{
    ARRAY_BUFFER, COMPILE_STATUS, LINK_STATUS, NEAREST, RGBA, STATIC_DRAW, TEXTURE_2D,
    TEXTURE_MAG_FILTER, TEXTURE_MIN_FILTER, TRIANGLES, UNSIGNED_BYTE,
};
use crate::error::ErrorView;
use crate::quad::{PLACEHOLDER_PIXEL, QUAD_POSITIONS, QUAD_TEXTURE_COORDS};
use crate::session::{
    failure_text, log_text, object_missing_text, program_fallback_text, shader_fallback_text,
    SessionView,
};
use crate::setup::{
    acquisition_script, program_script, setup_script, shader_script, shader_type,
};
use crate::trace::{
    accepted_through, lemma_issued_in_order, lemma_run_completes, lemma_run_stops,
    lemma_success_takes_whole_script, run,
};

verus! {

broadcast use vstd::string::group_string_axioms;

/// Compiling a shader has one of three ends. Without a shader object it
/// fails at once, with a fixed text. With a compile status of `true` it
/// succeeds after the four calls of its script. With any other status it
/// reads the log and fails with it, or with a fixed text if the host has no
/// log; the failure text is empty only if the host's log is.
pub proof fn lemma_compile_shader_outcome(stage: ShaderStage, source: &str, replies: Seq<Reply>)
    ensures
        ({
            let script = shader_script(stage, source);
            let seen = run(SessionView::begin(script), replies);
            &&& replies.len() >= 1 && replies[0] != Reply::Obtained ==> {
                &&& seen.issued == seq![
                    Command::CreateShader { stage, shader_type: shader_type(stage) },
                ]
                &&& seen.outcome == Some(
                    Err::<(), ErrorView>(ErrorView::ShaderCompileFailed(object_missing_text())),
                )
            }
            &&& replies.len() >= 4 && replies[0] == Reply::Obtained && replies[3] == Reply::Flag(
                Some(true),
            ) ==> {
                &&& seen.issued == script
                &&& seen.outcome == Some(Ok::<(), ErrorView>(()))
            }
            &&& replies.len() >= 5 && replies[0] == Reply::Obtained && replies[3] != Reply::Flag(
                Some(true),
            ) ==> {
                &&& seen.issued == script.push(Command::GetShaderInfoLog { stage })
                &&& seen.outcome == Some(
                    Err::<(), ErrorView>(
                        ErrorView::ShaderCompileFailed(
                            failure_text(replies[4], shader_fallback_text()),
                        ),
                    ),
                )
                &&& log_text(replies[4]) != Some(Seq::<char>::empty()) ==> failure_text(
                    replies[4],
                    shader_fallback_text(),
                ).len() > 0
            }
        }),
{
    let script = shader_script(stage, source);
    let session = SessionView::begin(script);
    if replies.len() >= 1 && replies[0] != Reply::Obtained {
        lemma_run_stops(session, replies, 0);
        assert(script.subrange(0, 1) =~= seq![
            Command::CreateShader { stage, shader_type: shader_type(stage) },
        ]);
    } else if replies.len() >= 4 && replies[3] == Reply::Flag(Some(true)) {
        lemma_run_completes(session, replies);
        assert(script.skip(0) =~= script);
    } else if replies.len() >= 5 {
        lemma_run_stops(session, replies, 3);
        assert(script.subrange(0, 4) =~= script);
        lemma_failure_texts(replies[4]);
    }
}

/// Linking the program has one of three ends. Without a program object it
/// fails at once, with a fixed text. With a link status of `true` it
/// succeeds after the five calls of its script. With any other status it
/// reads the log and fails with it, or with a fixed text if the host has no
/// log; the failure text is empty only if the host's log is.
pub proof fn lemma_link_program_outcome(replies: Seq<Reply>)
    ensures
        ({
            let script = program_script();
            let seen = run(SessionView::begin(script), replies);
            &&& replies.len() >= 1 && replies[0] != Reply::Obtained ==> {
                &&& seen.issued == seq![Command::CreateProgram]
                &&& seen.outcome == Some(
                    Err::<(), ErrorView>(ErrorView::ProgramLinkFailed(object_missing_text())),
                )
            }
            &&& replies.len() >= 5 && replies[0] == Reply::Obtained && replies[4] == Reply::Flag(
                Some(true),
            ) ==> {
                &&& seen.issued == script
                &&& seen.outcome == Some(Ok::<(), ErrorView>(()))
            }
            &&& replies.len() >= 6 && replies[0] == Reply::Obtained && replies[4] != Reply::Flag(
                Some(true),
            ) ==> {
                &&& seen.issued == script.push(Command::GetProgramInfoLog)
                &&& seen.outcome == Some(
                    Err::<(), ErrorView>(
                        ErrorView::ProgramLinkFailed(
                            failure_text(replies[5], program_fallback_text()),
                        ),
                    ),
                )
                &&& log_text(replies[5]) != Some(Seq::<char>::empty()) ==> failure_text(
                    replies[5],
                    program_fallback_text(),
                ).len() > 0
            }
        }),
{
    let script = program_script();
    let session = SessionView::begin(script);
    if replies.len() >= 1 && replies[0] != Reply::Obtained {
        lemma_run_stops(session, replies, 0);
        assert(script.subrange(0, 1) =~= seq![Command::CreateProgram]);
    } else if replies.len() >= 5 && replies[4] == Reply::Flag(Some(true)) {
        lemma_run_completes(session, replies);
        assert(script.skip(0) =~= script);
    } else if replies.len() >= 6 {
        lemma_run_stops(session, replies, 4);
        assert(script.subrange(0, 5) =~= script);
        lemma_failure_texts(replies[5]);
    }
}

/// A failure text is empty only if it is the host's log and that log is
/// empty.
proof fn lemma_failure_texts(log: Reply)
    ensures
        log_text(log) != Some(Seq::<char>::empty()) ==> failure_text(
            log,
            shader_fallback_text(),
        ).len() > 0 && failure_text(log, program_fallback_text()).len() > 0,
{
    reveal_strlit("Unknown error creating shader");
    reveal_strlit("Unknown error creating program object");
    if let Some(text) = log_text(log) {
        assert(text.len() == 0 ==> text =~= Seq::<char>::empty());
    }
}

/// If the host finds no element of the given identifier, setting up fails
/// with `SurfaceNotFound`, and the lookup is the only call that was made:
/// nothing has been created on the graphics device.
pub proof fn lemma_unknown_surface_creates_nothing(id: &str, replies: Seq<Reply>)
    requires
        replies.len() >= 1,
        replies[0] != Reply::Obtained,
    ensures
        ({
            let seen = run(SessionView::begin(setup_script(id)), replies);
            &&& seen.issued == seq![Command::FindElement { id }]
            &&& seen.outcome == Some(Err::<(), ErrorView>(ErrorView::SurfaceNotFound))
            &&& forall|place: int|
                0 <= place < seen.issued.len() ==> !(#[trigger] seen.issued[place]).creates_object()
        }),
{
    let script = setup_script(id);
    lemma_run_stops(SessionView::begin(script), replies, 0);
    assert(script.subrange(0, 1) =~= seq![Command::FindElement { id }]);
}

/// The session that sets up the quad on the element called `id`, before
/// its first call.
pub open spec fn setup<'a>(id: &'a str) -> SessionView<'a> {
    SessionView::begin(setup_script(id))
}

/// Whether the call at `place` was issued, was `command`, and was answered
/// by `reply`.
pub open spec fn answered(
    issued: Seq<Command>,
    replies: Seq<Reply>,
    place: int,
    command: Command,
    reply: Reply,
) -> bool {
    &&& 0 <= place < issued.len()
    &&& place < replies.len()
    &&& issued[place] == command
    &&& replies[place] == reply
}

/// A call of the setup that is not the reading of a log is the script
/// command of its place, and every answer before it was accepted.
proof fn lemma_setup_walk(id: &str, replies: Seq<Reply>, place: int)
    requires
        0 <= place < run(setup(id), replies).issued.len(),
        place + 1 < run(setup(id), replies).issued.len() || !run(
            setup(id),
            replies,
        ).issued[place].reads_log(),
    ensures
        place < setup_script(id).len() == 40,
        place <= replies.len(),
        run(setup(id), replies).issued[place] == setup_script(id)[place],
        accepted_through(setup(id), replies, place),
{
    lemma_issued_in_order(setup(id), replies, place);
}

/// No call that builds the program is made unless both shaders have
/// compiled: before it, the compile status of the vertex shader and that of
/// the fragment shader have each been queried and answered `true`.
pub proof fn lemma_linking_follows_compiling(id: &str, replies: Seq<Reply>, place: int)
    requires
        0 <= place < run(setup(id), replies).issued.len(),
        run(setup(id), replies).issued[place].links(),
    ensures
        ({
            let issued = run(setup(id), replies).issued;
            &&& exists|query: int|
                query < place && #[trigger] answered(
                    issued,
                    replies,
                    query,
                    Command::GetShaderParameter {
                        stage: ShaderStage::Vertex,
                        parameter: COMPILE_STATUS,
                    },
                    Reply::Flag(Some(true)),
                )
            &&& exists|query: int|
                query < place && #[trigger] answered(
                    issued,
                    replies,
                    query,
                    Command::GetShaderParameter {
                        stage: ShaderStage::Fragment,
                        parameter: COMPILE_STATUS,
                    },
                    Reply::Flag(Some(true)),
                )
        }),
{
    let issued = run(setup(id), replies).issued;
    lemma_setup_walk(id, replies, place);
    assert(place >= 12);
    lemma_setup_walk(id, replies, 7);
    lemma_setup_walk(id, replies, 11);
    assert(answered(
        issued,
        replies,
        7,
        Command::GetShaderParameter { stage: ShaderStage::Vertex, parameter: COMPILE_STATUS },
        Reply::Flag(Some(true)),
    ));
    assert(answered(
        issued,
        replies,
        11,
        Command::GetShaderParameter {
                        stage: ShaderStage::Fragment,
                        parameter: COMPILE_STATUS,
                    },
        Reply::Flag(Some(true)),
    ));
}

/// If the vertex shader does not compile, setting up ends there: the log is
/// read, the session fails with `ShaderCompileFailed` and the log, and no
/// call was made beyond the reading of the log, so that nothing was linked.
pub proof fn lemma_invalid_vertex_shader_ends_setup(id: &str, replies: Seq<Reply>)
    requires
        replies.len() >= 9,
        accepted_through(setup(id), replies, 7),
        replies[7] != Reply::Flag(Some(true)),
    ensures
        ({
            let seen = run(setup(id), replies);
            &&& seen.issued == setup_script(id).take(8).push(
                Command::GetShaderInfoLog { stage: ShaderStage::Vertex },
            )
            &&& seen.outcome == Some(
                Err::<(), ErrorView>(
                    ErrorView::ShaderCompileFailed(
                        failure_text(replies[8], shader_fallback_text()),
                    ),
                ),
            )
            &&& log_text(replies[8]) != Some(Seq::<char>::empty()) ==> failure_text(
                replies[8],
                shader_fallback_text(),
            ).len() > 0
            &&& forall|place: int|
                0 <= place < seen.issued.len() ==> !(#[trigger] seen.issued[place]).links()
        }),
{
    lemma_run_stops(setup(id), replies, 7);
    lemma_failure_texts(replies[8]);
    assert(setup_script(id).subrange(0, 8) =~= setup_script(id).take(8));
}

/// No location is looked up in the program unless the program has linked:
/// before the lookup, the link status has been queried and answered `true`.
pub proof fn lemma_locating_follows_linking(id: &str, replies: Seq<Reply>, place: int)
    requires
        0 <= place < run(setup(id), replies).issued.len(),
        run(setup(id), replies).issued[place].locates(),
    ensures
        exists|query: int|
            query < place && #[trigger] answered(
                run(setup(id), replies).issued,
                replies,
                query,
                Command::GetProgramParameter { parameter: LINK_STATUS },
                Reply::Flag(Some(true)),
            ),
{
    lemma_setup_walk(id, replies, place);
    assert(place >= 17);
    lemma_setup_walk(id, replies, 16);
    assert(answered(
        run(setup(id), replies).issued,
        replies,
        16,
        Command::GetProgramParameter { parameter: LINK_STATUS },
        Reply::Flag(Some(true)),
    ));
}

/// Nothing is created on the graphics device unless the surface has been
/// acquired: before the call that creates, the element has been found, it
/// has proved to be a canvas, and the canvas has handed out a context for
/// WebGL.
pub proof fn lemma_creating_follows_acquiring(id: &str, replies: Seq<Reply>, place: int)
    requires
        0 <= place < run(setup(id), replies).issued.len(),
        run(setup(id), replies).issued[place].creates_object(),
    ensures
        place >= 4,
        run(setup(id), replies).issued.take(4) == acquisition_script(id),
        forall|earlier: int| 0 <= earlier < 4 ==> #[trigger] replies[earlier] == Reply::Obtained,
{
    let issued = run(setup(id), replies).issued;
    lemma_setup_walk(id, replies, place);
    lemma_setup_walk(id, replies, 0);
    lemma_setup_walk(id, replies, 1);
    lemma_setup_walk(id, replies, 2);
    lemma_setup_walk(id, replies, 3);
    assert(issued.take(4) =~= acquisition_script(id));
}

/// Whenever vertex data is uploaded, it goes to the array buffer, once and
/// for all, and it is the geometry of the quad: the eighteen numbers of the
/// positions into the buffer of the positions, or the twelve numbers of the
/// texture coordinates into the buffer of the texture coordinates, which
/// has been bound by the call before.
pub proof fn lemma_uploads_carry_the_quad(id: &str, replies: Seq<Reply>, place: int)
    requires
        0 <= place < run(setup(id), replies).issued.len(),
        run(setup(id), replies).issued[place] is BufferData,
    ensures
        ({
            let issued = run(setup(id), replies).issued;
            &&& place >= 1
            &&& issued[place - 1] matches Command::BindBuffer { target: bound, attribute }
            &&& issued[place] matches Command::BufferData { target, data, usage }
            &&& bound == ARRAY_BUFFER
            &&& target == ARRAY_BUFFER
            &&& usage == STATIC_DRAW
            &&& match attribute {
                Attribute::Position => data@ == seq![
                    -1i8, -1i8, 0i8, 1i8, -1i8, 0i8, 1i8, 1i8, 0i8,
                    -1i8, -1i8, 0i8, 1i8, 1i8, 0i8, -1i8, 1i8, 0i8,
                ],
                Attribute::TextureCoord => data@ == seq![
                    0i8, 0i8, 1i8, 0i8, 1i8, 1i8,
                    0i8, 0i8, 1i8, 1i8, 0i8, 1i8,
                ],
            }
        }),
{
    broadcast use vstd::array::group_array_axioms;

    lemma_setup_walk(id, replies, place);
    assert(place == 23 || place == 28);
    lemma_setup_walk(id, replies, place - 1);
    assert(QUAD_POSITIONS@ =~= seq![
        -1i8, -1i8, 0i8, 1i8, -1i8, 0i8, 1i8, 1i8, 0i8,
        -1i8, -1i8, 0i8, 1i8, 1i8, 0i8, -1i8, 1i8, 0i8,
    ]);
    assert(QUAD_TEXTURE_COORDS@ =~= seq![
        0i8, 0i8, 1i8, 0i8, 1i8, 1i8,
        0i8, 0i8, 1i8, 1i8, 0i8, 1i8,
    ]);
}

/// Whenever a draw call is made, it asks for the six vertices of the quad,
/// from the first on, as triangles without an index buffer. It is the last
/// call of the session and the only draw call. Both vertex buffers have
/// been created and filled before it: the one of the positions with the
/// positions of the quad, then the one of the texture coordinates with its
/// texture coordinates.
pub proof fn lemma_draw_is_last(id: &str, replies: Seq<Reply>, place: int)
    requires
        0 <= place < run(setup(id), replies).issued.len(),
        run(setup(id), replies).issued[place] is DrawArrays,
    ensures
        ({
            let issued = run(setup(id), replies).issued;
            &&& issued[place] == Command::DrawArrays { mode: TRIANGLES, first: 0, count: 6 }
            &&& place + 1 == issued.len()
            &&& forall|earlier: int|
                0 <= earlier < place ==> !(#[trigger] issued[earlier] is DrawArrays)
            &&& exists|positions: int, coords: int|
                {
                    &&& 2 <= positions < coords - 2 < place
                    &&& #[trigger] answered(
                        issued,
                        replies,
                        positions - 2,
                        Command::CreateBuffer { attribute: Attribute::Position },
                        Reply::Obtained,
                    )
                    &&& issued[positions] == Command::BufferData {
                        target: ARRAY_BUFFER,
                        data: &QUAD_POSITIONS,
                        usage: STATIC_DRAW,
                    }
                    &&& #[trigger] answered(
                        issued,
                        replies,
                        coords - 2,
                        Command::CreateBuffer { attribute: Attribute::TextureCoord },
                        Reply::Obtained,
                    )
                    &&& issued[coords] == Command::BufferData {
                        target: ARRAY_BUFFER,
                        data: &QUAD_TEXTURE_COORDS,
                        usage: STATIC_DRAW,
                    }
                }
        }),
{
    let issued = run(setup(id), replies).issued;
    lemma_setup_walk(id, replies, place);
    assert(place == 39);
    lemma_issued_in_order(setup(id), replies, issued.len() - 1);
    assert forall|earlier: int| 0 <= earlier < place implies !(#[trigger] issued[earlier]
        is DrawArrays) by {
        lemma_setup_walk(id, replies, earlier);
    }
    lemma_setup_walk(id, replies, 21);
    lemma_setup_walk(id, replies, 23);
    lemma_setup_walk(id, replies, 26);
    lemma_setup_walk(id, replies, 28);
    assert(answered(
        issued,
        replies,
        23 - 2,
        Command::CreateBuffer { attribute: Attribute::Position },
        Reply::Obtained,
    ));
    assert(answered(
        issued,
        replies,
        28 - 2,
        Command::CreateBuffer { attribute: Attribute::TextureCoord },
        Reply::Obtained,
    ));
}

/// Whenever the texture is filled, it is filled with the placeholder: one
/// pixel, four channels, each 255. It has been created before. If the
/// session succeeds, the two calls after the fill set nearest-neighbour
/// sampling, for magnification and for minification.
pub proof fn lemma_texture_is_placeholder(id: &str, replies: Seq<Reply>, place: int)
    requires
        0 <= place < run(setup(id), replies).issued.len(),
        run(setup(id), replies).issued[place] is TexImage2d,
    ensures
        ({
            let seen = run(setup(id), replies);
            &&& seen.issued[place] == Command::TexImage2d {
                target: TEXTURE_2D,
                level: 0,
                internal_format: RGBA as i32,
                width: 1,
                height: 1,
                border: 0,
                format: RGBA,
                pixel_type: UNSIGNED_BYTE,
                pixels: &PLACEHOLDER_PIXEL,
            }
            &&& PLACEHOLDER_PIXEL@ == seq![255u8, 255u8, 255u8, 255u8]
            &&& answered(seen.issued, replies, place - 2, Command::CreateTexture, Reply::Obtained)
            &&& seen.outcome == Some(Ok::<(), ErrorView>(())) ==> {
                &&& seen.issued[place + 1] == Command::TexParameteri {
                    target: TEXTURE_2D,
                    parameter: TEXTURE_MAG_FILTER,
                    value: NEAREST as i32,
                }
                &&& seen.issued[place + 2] == Command::TexParameteri {
                    target: TEXTURE_2D,
                    parameter: TEXTURE_MIN_FILTER,
                    value: NEAREST as i32,
                }
            }
        }),
{
    broadcast use vstd::array::group_array_axioms;

    let seen = run(setup(id), replies);
    lemma_setup_walk(id, replies, place);
    assert(place == 33);
    lemma_setup_walk(id, replies, 31);
    assert(PLACEHOLDER_PIXEL@ =~= seq![255u8, 255u8, 255u8, 255u8]);
    if seen.outcome == Some(Ok::<(), ErrorView>(())) {
        lemma_success_takes_whole_script(setup(id), replies);
    }
}

/// Setting up succeeds exactly if the host answers each of the forty calls
/// of the script in a way that is accepted; the calls made are then those
/// of the script, each once, in order.
pub proof fn lemma_setup_succeeds(id: &str, replies: Seq<Reply>)
    ensures
        setup_script(id).len() == 40,
        run(setup(id), replies).outcome == Some(Ok::<(), ErrorView>(())) <==> replies.len() >= 40
            && accepted_through(setup(id), replies, 40),
        run(setup(id), replies).outcome == Some(Ok::<(), ErrorView>(())) ==> run(
            setup(id),
            replies,
        ).issued == setup_script(id),
{
    if run(setup(id), replies).outcome == Some(Ok::<(), ErrorView>(())) {
        lemma_success_takes_whole_script(setup(id), replies);
        assert(setup_script(id).skip(0) =~= setup_script(id));
    }
    if replies.len() >= 40 && accepted_through(setup(id), replies, 40) {
        lemma_run_completes(setup(id), replies);
    }
}

} // verus!
