//! The command variants and the single operation they expose.
//!
//! A command is a named unit of behaviour with one fallible operation,
//! `execute`. Two variants exist: [`NullCmd`], the sentinel returned for
//! unregistered names, and [`PingCmd`], which captures an optional textual
//! argument at construction. Both are placeholders: `execute` fails with
//! [`ErrorKind::UnknownCommand`] unconditionally.

use vstd::prelude::*;

verus! {

/// The one error a command can produce. There is no distinction yet between
/// "name not found" and "command found but not implemented": both collapse
/// to `UnknownCommand`.
#[derive(Clone, Copy, Debug, PartialEq, Eq, Structural)]
pub enum ErrorKind {
    UnknownCommand,
}

impl ErrorKind {
    /// The static message this error carries.
    pub fn message(&self) -> (r: &'static str)
        ensures
            r@ == "Unknown command"@,
    {
        "Unknown command"
    }
}

/// The abstract value of a command: which variant it is, and for a ping
/// command, the argument it captured.
pub enum CmdView {
    Null,
    Ping(Option<Seq<char>>),
}

/// What executing a command yields, as a function of its abstract value.
/// Every variant is a placeholder, so every variant fails.
pub open spec fn execute_spec(c: CmdView) -> Result<(), ErrorKind> {
    match c {
        CmdView::Null => Err(ErrorKind::UnknownCommand),
        CmdView::Ping(_) => Err(ErrorKind::UnknownCommand),
    }
}

/// A named unit of behaviour exposing a single fallible operation.
/// Current behaviour for every implementor is to fail with
/// `UnknownCommand`; the contract records exactly that.
pub trait Command {
    fn execute(&self) -> (r: Result<(), ErrorKind>)
        ensures
            r == Err::<(), ErrorKind>(ErrorKind::UnknownCommand),
    ;
}

/// The sentinel command: returned when a requested name is not registered.
/// It ignores any constructor arguments and always fails.
pub struct NullCmd {}

impl NullCmd {
    pub fn new() -> (r: NullCmd)
        ensures
            r == (NullCmd {}),
    {
        NullCmd {}
    }
}

impl Command for NullCmd {
    fn execute(&self) -> (r: Result<(), ErrorKind>) {
        Err(ErrorKind::UnknownCommand)
    }
}

/// A ping command: holds an optional textual argument captured at
/// construction. Its `execute` is a placeholder and always fails.
pub struct PingCmd {
    args: Option<String>,
}

impl View for PingCmd {
    type V = Option<Seq<char>>;

    closed spec fn view(&self) -> Option<Seq<char>> {
        self.args.deep_view()
    }
}

impl PingCmd {
    pub fn new(args: Option<String>) -> (r: PingCmd)
        ensures
            r@ == args.deep_view(),
    {
        PingCmd { args }
    }

    /// The optional argument captured at construction.
    pub fn args(&self) -> (r: &Option<String>)
        ensures
            r.deep_view() == self@,
    {
        &self.args
    }
}

impl Command for PingCmd {
    fn execute(&self) -> (r: Result<(), ErrorKind>) {
        Err(ErrorKind::UnknownCommand)
    }
}

/// A command of either variant, ready to be stored or handed out by a
/// registry. Its view abstracts it to a [`CmdView`].
pub enum AnyCommand {
    Null(NullCmd),
    Ping(PingCmd),
}

impl View for AnyCommand {
    type V = CmdView;

    open spec fn view(&self) -> CmdView {
        match self {
            AnyCommand::Null(_) => CmdView::Null,
            AnyCommand::Ping(p) => CmdView::Ping(p@),
        }
    }
}

impl Command for AnyCommand {
    fn execute(&self) -> (r: Result<(), ErrorKind>) {
        match self {
            AnyCommand::Null(c) => c.execute(),
            AnyCommand::Ping(c) => c.execute(),
        }
    }
}

} // verus!
