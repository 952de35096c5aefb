//! What can go wrong while the quad is set up.

use vstd::prelude::*;

verus! {

/// The failures of a session. Each ends the session at the call that
/// failed; nothing is retried and nothing is drawn.
#[derive(Debug, PartialEq, Eq)]
pub enum Error {
    /// No element of the document carries the identifier.
    SurfaceNotFound,
    /// The element is not a canvas.
    WrongElementType,
    /// The canvas cannot provide a WebGL rendering context.
    ContextUnavailable,
    /// A shader could not be created or compiled; holds the compiler's log.
    ShaderCompileFailed(String),
    /// The program could not be created or linked; holds the linker's log.
    ProgramLinkFailed(String),
    /// The host refused to allocate a buffer.
    BufferCreateFailed,
    /// The host refused to allocate the texture.
    TextureCreateFailed,
    /// The linked program has no uniform of this name.
    UniformNotFound(String),
}

/// An [`Error`] with its texts as sequences of characters.
pub enum ErrorView {
    SurfaceNotFound,
    WrongElementType,
    ContextUnavailable,
    ShaderCompileFailed(Seq<char>),
    ProgramLinkFailed(Seq<char>),
    BufferCreateFailed,
    TextureCreateFailed,
    UniformNotFound(Seq<char>),
}

impl View for Error {
    type V = ErrorView;

    open spec fn view(&self) -> ErrorView {
        match *self {
            Error::SurfaceNotFound => ErrorView::SurfaceNotFound,
            Error::WrongElementType => ErrorView::WrongElementType,
            Error::ContextUnavailable => ErrorView::ContextUnavailable,
            Error::ShaderCompileFailed(log) => ErrorView::ShaderCompileFailed(log@),
            Error::ProgramLinkFailed(log) => ErrorView::ProgramLinkFailed(log@),
            Error::BufferCreateFailed => ErrorView::BufferCreateFailed,
            Error::TextureCreateFailed => ErrorView::TextureCreateFailed,
            Error::UniformNotFound(name) => ErrorView::UniformNotFound(name@),
        }
    }
}

/// The view of a session's result.
pub open spec fn outcome_view(outcome: Result<(), Error>) -> Result<(), ErrorView> {
    match outcome {
        Ok(()) => Ok(()),
        Err(error) => Err(error@),
    }
}

} // verus!
