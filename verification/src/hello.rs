//! Greeting utilities.

pub mod nested;
