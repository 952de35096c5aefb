//! The conversation between the compositor and its host.
//!
//! A session walks a script, a fixed sequence of commands, one command at a
//! time. The host's answer to the command at hand decides what happens
//! next: the walk moves on, it ends with an error, or, after a status query
//! that did not report success, it reads the log first and ends then.

use vstd::prelude::*;
use crate::command::{Command, Reply};
use crate::error::{outcome_view, Error, ErrorView};

verus! {

broadcast use vstd::string::group_string_axioms;

/// The text reported when the host hands out no shader or program object.
pub open spec fn object_missing_text() -> Seq<char> {
    "Unable to create shader object"@
}

/// The text reported when a shader fails to compile and the host has no log.
pub open spec fn shader_fallback_text() -> Seq<char> {
    "Unknown error creating shader"@
}

/// The text reported when the program fails to link and the host has no log.
pub open spec fn program_fallback_text() -> Seq<char> {
    "Unknown error creating program object"@
}

/// The error that ends the session when `command` asks the host for an
/// object and gets none; `None` for a command that asks for no object.
pub open spec fn failure(command: Command) -> Option<ErrorView> {
    match command {
        Command::FindElement { .. } => Some(ErrorView::SurfaceNotFound),
        Command::AsCanvas => Some(ErrorView::WrongElementType),
        Command::GetContext { .. } => Some(ErrorView::ContextUnavailable),
        Command::AsRenderingContext => Some(ErrorView::ContextUnavailable),
        Command::CreateShader { .. } => Some(ErrorView::ShaderCompileFailed(object_missing_text())),
        Command::CreateProgram => Some(ErrorView::ProgramLinkFailed(object_missing_text())),
        Command::GetUniformLocation { name } => Some(ErrorView::UniformNotFound(name@)),
        Command::CreateBuffer { .. } => Some(ErrorView::BufferCreateFailed),
        Command::CreateTexture => Some(ErrorView::TextureCreateFailed),
        _ => None,
    }
}

/// The command that reads the log after the status query `command` did not
/// report success; `None` for a command that is no status query.
pub open spec fn diagnostic<'a>(command: Command<'a>) -> Option<Command<'a>> {
    match command {
        Command::GetShaderParameter { stage, .. } => Some(Command::GetShaderInfoLog { stage }),
        Command::GetProgramParameter { .. } => Some(Command::GetProgramInfoLog),
        _ => None,
    }
}

/// Whether `reply` lets the session move past `command`: the object that
/// was asked for has been obtained, the status that was queried is `true`,
/// or the command has nothing to report.
pub open spec fn accepted(command: Command, reply: Reply) -> bool {
    if failure(command) is Some {
        reply == Reply::Obtained
    } else if diagnostic(command) is Some {
        reply == Reply::Flag(Some(true))
    } else {
        true
    }
}

/// The log carried by `reply`, if it carries one.
pub open spec fn log_text(reply: Reply) -> Option<Seq<char>> {
    match reply {
        Reply::Text(Some(text)) => Some(text@),
        _ => None,
    }
}

/// The text of a failure that is reported from a log: the log as the host
/// gave it, or `fallback` if the host has none.
pub open spec fn failure_text(reply: Reply, fallback: Seq<char>) -> Seq<char> {
    match log_text(reply) {
        Some(text) => text,
        None => fallback,
    }
}

/// The error that ends the session once the log has been read after the
/// status query `command` did not report success; `None` for a command
/// that is no status query.
pub open spec fn diagnosis(command: Command, reply: Reply) -> Option<ErrorView> {
    match command {
        Command::GetShaderParameter { .. } => Some(
            ErrorView::ShaderCompileFailed(failure_text(reply, shader_fallback_text())),
        ),
        Command::GetProgramParameter { .. } => Some(
            ErrorView::ProgramLinkFailed(failure_text(reply, program_fallback_text())),
        ),
        _ => None,
    }
}

/// A session as a mathematical value.
pub struct SessionView<'a> {
    /// The commands of the failure-free walk, in order.
    pub script: Seq<Command<'a>>,
    /// The index of the script command at hand.
    pub cursor: int,
    /// Whether the status query at hand has not reported success, so that
    /// the call awaited is the one that reads the log.
    pub diagnosing: bool,
}

/// What one answer leads to, as a mathematical value.
pub enum ProgressView<'a> {
    Continue(SessionView<'a>),
    Finished(Result<(), ErrorView>),
}

impl<'a> SessionView<'a> {
    /// The session at the start of `script`.
    pub open spec fn begin(script: Seq<Command<'a>>) -> SessionView<'a> {
        SessionView { script, cursor: 0, diagnosing: false }
    }

    /// A session always has a command at hand, and reads a log only after a
    /// status query.
    pub open spec fn wf(self) -> bool {
        &&& 0 <= self.cursor < self.script.len()
        &&& self.diagnosing ==> diagnostic(self.script[self.cursor]) is Some
    }

    /// The call the host has to perform next.
    pub open spec fn command(self) -> Command<'a> {
        if self.diagnosing {
            diagnostic(self.script[self.cursor])->0
        } else {
            self.script[self.cursor]
        }
    }

    /// What the host's answer to [`Self::command`] leads to.
    pub open spec fn next(self, reply: Reply) -> ProgressView<'a> {
        let current = self.script[self.cursor];
        if self.diagnosing {
            ProgressView::Finished(Err(diagnosis(current, reply)->0))
        } else if accepted(current, reply) {
            if self.cursor + 1 < self.script.len() {
                ProgressView::Continue(SessionView { cursor: self.cursor + 1, ..self })
            } else {
                ProgressView::Finished(Ok(()))
            }
        } else if failure(current) is Some {
            ProgressView::Finished(Err(failure(current)->0))
        } else {
            ProgressView::Continue(SessionView { diagnosing: true, ..self })
        }
    }
}

/// Computes [`failure`].
fn failure_of(command: Command) -> (error: Option<Error>)
    ensures
        match error {
            Some(error) => failure(command) == Some(error@),
            None => failure(command) is None,
        },
{
    match command {
        Command::FindElement { .. } => Some(Error::SurfaceNotFound),
        Command::AsCanvas => Some(Error::WrongElementType),
        Command::GetContext { .. } => Some(Error::ContextUnavailable),
        Command::AsRenderingContext => Some(Error::ContextUnavailable),
        Command::CreateShader { .. } => Some(
            Error::ShaderCompileFailed("Unable to create shader object".to_string()),
        ),
        Command::CreateProgram => Some(
            Error::ProgramLinkFailed("Unable to create shader object".to_string()),
        ),
        Command::GetUniformLocation { name } => Some(Error::UniformNotFound(name.to_string())),
        Command::CreateBuffer { .. } => Some(Error::BufferCreateFailed),
        Command::CreateTexture => Some(Error::TextureCreateFailed),
        _ => None,
    }
}

/// Computes [`diagnostic`].
fn diagnostic_of<'a>(command: Command<'a>) -> (query: Option<Command<'a>>)
    ensures
        query == diagnostic(command),
{
    match command {
        Command::GetShaderParameter { stage, .. } => Some(Command::GetShaderInfoLog { stage }),
        Command::GetProgramParameter { .. } => Some(Command::GetProgramInfoLog),
        _ => None,
    }
}

/// Computes [`accepted`].
fn accepts(command: Command, reply: &Reply) -> (moves_on: bool)
    ensures
        moves_on == accepted(command, *reply),
{
    match command {
        Command::FindElement { .. }
        | Command::AsCanvas
        | Command::GetContext { .. }
        | Command::AsRenderingContext
        | Command::CreateShader { .. }
        | Command::CreateProgram
        | Command::GetUniformLocation { .. }
        | Command::CreateBuffer { .. }
        | Command::CreateTexture => match reply {
            Reply::Obtained => true,
            _ => false,
        },
        Command::GetShaderParameter { .. } | Command::GetProgramParameter { .. } => match reply {
            Reply::Flag(Some(flag)) => *flag,
            _ => false,
        },
        _ => true,
    }
}

/// Computes [`failure_text`]; the log moves into the result.
fn log_or(reply: Reply, fallback: &str) -> (text: String)
    ensures
        text@ == failure_text(reply, fallback@),
{
    match reply {
        Reply::Text(Some(text)) => text,
        _ => fallback.to_string(),
    }
}

/// Computes [`diagnosis`] for a status query.
fn diagnose(command: Command, reply: Reply) -> (error: Error)
    requires
        diagnostic(command) is Some,
    ensures
        diagnosis(command, reply) == Some(error@),
{
    match command {
        Command::GetShaderParameter { .. } => Error::ShaderCompileFailed(
            log_or(reply, "Unknown error creating shader"),
        ),
        _ => Error::ProgramLinkFailed(log_or(reply, "Unknown error creating program object")),
    }
}

/// One conversation with the host, from its first call to its outcome.
pub struct Session<'a> {
    script: Vec<Command<'a>>,
    cursor: usize,
    diagnosing: bool,
}

/// What one answer leads to: the session goes on with its next call, or it
/// is over and this is its outcome.
pub enum Progress<'a> {
    Continue(Session<'a>),
    Finished(Result<(), Error>),
}

impl<'a> View for Session<'a> {
    type V = SessionView<'a>;

    closed spec fn view(&self) -> SessionView<'a> {
        SessionView {
            script: self.script@,
            cursor: self.cursor as int,
            diagnosing: self.diagnosing,
        }
    }
}

impl<'a> View for Progress<'a> {
    type V = ProgressView<'a>;

    open spec fn view(&self) -> ProgressView<'a> {
        match *self {
            Progress::Continue(session) => ProgressView::Continue(session@),
            Progress::Finished(outcome) => ProgressView::Finished(outcome_view(outcome)),
        }
    }
}

impl<'a> Session<'a> {
    #[verifier::type_invariant]
    spec fn well_formed(self) -> bool {
        self@.wf()
    }

    /// Starts a session at the head of a script that has at least one
    /// command.
    pub(crate) fn begin(script: Vec<Command<'a>>) -> (session: Session<'a>)
        requires
            script@.len() > 0,
        ensures
            session@ == SessionView::begin(script@),
    {
        Session { script, cursor: 0, diagnosing: false }
    }

    /// The call the host has to perform next.
    pub fn command(&self) -> (command: Command<'a>)
        ensures
            self@.wf(),
            command == self@.command(),
    {
        proof {
            use_type_invariant(self);
        }
        let current = self.script[self.cursor];
        match (self.diagnosing, diagnostic_of(current)) {
            (true, Some(query)) => query,
            _ => current,
        }
    }

    /// Takes the host's answer to [`Self::command`] and moves on.
    pub fn advance(self, reply: Reply) -> (progress: Progress<'a>)
        ensures
            self@.wf(),
            progress@ == self@.next(reply),
            progress matches Progress::Continue(session) ==> session@.wf(),
    {
        proof {
            use_type_invariant(&self);
        }
        let current = self.script[self.cursor];
        if self.diagnosing {
            Progress::Finished(Err(diagnose(current, reply)))
        } else if accepts(current, &reply) {
            if self.cursor < self.script.len() - 1 {
                Progress::Continue(
                    Session { script: self.script, cursor: self.cursor + 1, diagnosing: false },
                )
            } else {
                Progress::Finished(Ok(()))
            }
        } else {
            match failure_of(current) {
                Some(error) => Progress::Finished(Err(error)),
                None => Progress::Continue(
                    Session { script: self.script, cursor: self.cursor, diagnosing: true },
                ),
            }
        }
    }
}

} // verus!
