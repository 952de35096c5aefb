//! Headless core of a one-shot WebGL quad compositor.
//!
//! The crate never touches a browser. It decides *which* host calls set up
//! and draw a textured quad, with which arguments and in which order, and
//! what every answer of the host means; an embedding performs the calls and
//! hands the answers back. A [`Session`] holds one such conversation:
//! [`Session::command`] is the call the host has to perform next,
//! [`Session::advance`] takes its answer.
//!
//! - [`command`]: the calls and the answers.
//! - [`session`]: how one answer moves a session on.
//! - [`setup`]: the scripts of this compositor and the sessions over them.
//! - [`trace`]: whole conversations, and what holds of every one of them.
//! - [`guarantees`]: what holds of every conversation of this compositor.
//! - [`quad`], [`gl`]: the data and the enumerants that the calls carry.
//! - [`error`]: the failures.
//!
//! The module [`hello`] is an unrelated greeting utility.

pub mod command;
pub mod error;
pub mod gl;
pub mod guarantees;
pub mod hello;
pub mod quad;
pub mod session;
pub mod setup;
pub mod trace;

pub use crate::command::{Attribute, Command, Reply, ShaderStage};
pub use crate::error::{Error, ErrorView};
pub use crate::session::{Progress, Session};
pub use crate::setup::{compile_shader, copy, initialise, link_program, render};
pub use crate::trace::{drive, replay, Record};
