//! Which mode type each kind of console handle takes.
//!
//! An input handle takes an [`InputMode`], a screen buffer an [`OutputMode`];
//! generic mode operations are bounded by these traits, so that a mode of the
//! wrong kind cannot be handed to a handle.

use vstd::prelude::*;
use crate::mode::{InputMode, OutputMode};

verus! {

#[verifier::external_type_specification]
#[verifier::external_body]
pub struct ExStdin(std::io::Stdin);

#[verifier::external_type_specification]
#[verifier::external_body]
pub struct ExStdinLock<'a>(std::io::StdinLock<'a>);

#[verifier::external_type_specification]
#[verifier::external_body]
pub struct ExStdout(std::io::Stdout);

#[verifier::external_type_specification]
#[verifier::external_body]
pub struct ExStdoutLock<'a>(std::io::StdoutLock<'a>);

#[verifier::external_type_specification]
#[verifier::external_body]
pub struct ExStderr(std::io::Stderr);

#[verifier::external_type_specification]
#[verifier::external_body]
pub struct ExStderrLock<'a>(std::io::StderrLock<'a>);

/// A console handle, and the mode type that it takes.
pub trait AsConsoleHandle {
    type Mode: Copy + From<u32> + Into<u32>;
}

/// A console input handle.
pub trait AsConsoleInputHandle: AsConsoleHandle<Mode = InputMode> {

}

/// A console screen buffer handle.
pub trait AsConsoleOutputHandle: AsConsoleHandle<Mode = OutputMode> {

}

impl<T: AsConsoleHandle<Mode = InputMode>> AsConsoleInputHandle for T {

}

impl<T: AsConsoleHandle<Mode = OutputMode>> AsConsoleOutputHandle for T {

}

impl AsConsoleHandle for std::io::Stdin {
    type Mode = InputMode;
}

impl<'a> AsConsoleHandle for std::io::StdinLock<'a> {
    type Mode = InputMode;
}

impl AsConsoleHandle for std::io::Stdout {
    type Mode = OutputMode;
}

impl<'a> AsConsoleHandle for std::io::StdoutLock<'a> {
    type Mode = OutputMode;
}

impl AsConsoleHandle for std::io::Stderr {
    type Mode = OutputMode;
}

impl<'a> AsConsoleHandle for std::io::StderrLock<'a> {
    type Mode = OutputMode;
}

} // verus!
