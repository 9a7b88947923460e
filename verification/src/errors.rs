use vstd::prelude::*;

verus! {

/// The reason a setup step was refused.
#[derive(Debug, Clone, Copy, PartialEq, Eq, Structural)]
pub enum SetupFault {
    /// A command name was bound twice during registration.
    DuplicateCommand,
    /// The surface the diagnostic overlay needs is absent in a development
    /// build.
    MissingSurface,
}

/// Errors surfaced by the shell. A setup failure is fatal to startup; the
/// invocation errors are returned to the caller as values and never crash
/// the dispatcher.
#[derive(Debug, PartialEq, Eq)]
pub enum ShellError {
    /// `invoke` was asked for a name that no registration bound.
    CommandNotFound,
    /// A setup step failed; startup aborts and the shell never becomes ready.
    SetupFailure(SetupFault),
    /// The handler itself failed; carries the handler's own error
    /// description.
    HandlerFailure(String),
}

impl ShellError {
    /// A diagnostic message for the caller: the handler's own description
    /// where one exists, a fixed phrase otherwise.
    pub fn describe(&self) -> (r: String)
        ensures
            self is CommandNotFound ==> r@ == "command not found"@,
            self matches ShellError::SetupFailure(f) && f is DuplicateCommand
                ==> r@ == "setup failed: command name already registered"@,
            self matches ShellError::SetupFailure(f) && f is MissingSurface
                ==> r@ == "setup failed: required surface is missing"@,
            self matches ShellError::HandlerFailure(msg) ==> r@ == msg@,
    {
        match self {
            ShellError::CommandNotFound => "command not found".to_owned(),
            ShellError::SetupFailure(SetupFault::DuplicateCommand) => {
                "setup failed: command name already registered".to_owned()
            },
            ShellError::SetupFailure(SetupFault::MissingSurface) => {
                "setup failed: required surface is missing".to_owned()
            },
            ShellError::HandlerFailure(msg) => msg.clone(),
        }
    }
}

} // verus!
