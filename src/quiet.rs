//! The quiet logger: it forwards warnings and errors and drops the rest.

use vstd::prelude::*;

verus! {

/// A call that a logger hands on to the console engine.
///
/// The message of `Warn` and `Error` is the caller's text itself, borrowed
/// unchanged.
#[derive(Clone, Copy, Debug, PartialEq, Eq)]
pub enum EngineCall<'a> {
    /// Print the message with warning styling.
    Warn(&'a str),
    /// Print the message with error styling.
    Error(&'a str),
    /// Stop any loading indicator that is running.
    Done,
}

/// A logger in quiet mode.
///
/// Each method stands for the operation of the same name of the logging
/// interface and returns what, if anything, the console engine has to do for
/// it. The logger holds no state: every handle, and every copy of one, makes
/// the same decisions.
#[derive(Clone, Copy, Debug, PartialEq, Eq)]
pub struct QuietLogger {}

impl QuietLogger {
    /// Creates a new quiet logger.
    pub fn new() -> (r: QuietLogger)
        ensures
            r == (QuietLogger {}),
    {
        QuietLogger {}
    }

    /// A trace message: dropped.
    pub fn trace(&self, _message: &str) -> (r: Option<EngineCall<'static>>)
        ensures
            r is None,
    {
        None
    }

    /// An info message: dropped.
    pub fn info(&self, _message: &str) -> (r: Option<EngineCall<'static>>)
        ensures
            r is None,
    {
        None
    }

    /// A warning: forwarded once, with its text unchanged.
    pub fn warn<'a>(&self, message: &'a str) -> (r: Option<EngineCall<'a>>)
        ensures
            r == Some(EngineCall::Warn(message)),
    {
        Some(EngineCall::Warn(message))
    }

    /// An error: forwarded once, with its text unchanged.
    pub fn error<'a>(&self, message: &'a str) -> (r: Option<EngineCall<'a>>)
        ensures
            r == Some(EngineCall::Error(message)),
    {
        Some(EngineCall::Error(message))
    }

    /// A success message: dropped.
    pub fn success(&self, _message: &str) -> (r: Option<EngineCall<'static>>)
        ensures
            r is None,
    {
        None
    }

    /// Blank lines: none are printed, whatever the count.
    pub fn newline(&self, _count: usize) -> (r: Option<EngineCall<'static>>)
        ensures
            r is None,
    {
        None
    }

    /// Indentation: none is printed, whatever the count.
    pub fn indent(&self, _count: usize) -> (r: Option<EngineCall<'static>>)
        ensures
            r is None,
    {
        None
    }

    /// The end of a loading phase: the engine is always told to stop its
    /// loading indicator, whether or not one is running.
    pub fn done(&self) -> (r: EngineCall<'static>)
        ensures
            r == EngineCall::Done,
    {
        EngineCall::Done
    }

    /// A named style: not registered, whatever the name and styles.
    pub fn add_style(&self, _name: &str, _styles: Vec<&'static str>) -> (r: Option<
        EngineCall<'static>,
    >)
        ensures
            r is None,
    {
        None
    }

    /// A loading message: no indicator is started.
    pub fn loading(&self, _message: &str) -> (r: Option<EngineCall<'static>>)
        ensures
            r is None,
    {
        None
    }

    /// Keeping the next message on the current line: nothing to do, since
    /// quiet mode prints no message that would need it.
    pub fn same(&self) -> (r: Option<EngineCall<'static>>)
        ensures
            r is None,
    {
        None
    }

    /// A plain message: dropped.
    pub fn log(&self, _message: &str) -> (r: Option<EngineCall<'static>>)
        ensures
            r is None,
    {
        None
    }
}

impl Default for QuietLogger {
    fn default() -> (r: QuietLogger)
        ensures
            r == (QuietLogger {}),
    {
        QuietLogger {}
    }
}

/// Any two quiet logger handles are the same logger: a handle and its clone
/// make identical decisions for every call, since no decision depends on the
/// handle it is asked of.
pub proof fn lemma_handles_alike(a: QuietLogger, b: QuietLogger)
    ensures
        a == b,
{
}

} // verus!
