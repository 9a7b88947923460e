use crate::errors::ShellError;
use vstd::prelude::*;

verus! {

/// A structured argument or result payload, as it crosses the invocation
/// boundary between the frontend and a handler.
#[derive(Debug, PartialEq, Eq)]
pub enum Value {
    Null,
    Bool(bool),
    Int(i64),
    Text(String),
}

impl Clone for Value {
    fn clone(&self) -> (res: Self)
        ensures
            res == *self,
    {
        match self {
            Value::Null => Value::Null,
            Value::Bool(b) => Value::Bool(*b),
            Value::Int(i) => Value::Int(*i),
            Value::Text(s) => Value::Text(s.clone()),
        }
    }
}

/// The behavior bound to a command name. Handlers are registered once at
/// startup and treated as immutable data afterwards.
#[derive(Debug, PartialEq, Eq)]
pub enum Handler {
    /// Performs no operation and reports success with `Value::Null`.
    NoOp,
    /// Always fails with the given description.
    Fail(String),
    /// Returns its first argument, or `Value::Null` when none was given.
    EchoFirst,
}

impl Clone for Handler {
    fn clone(&self) -> (res: Self)
        ensures
            res == *self,
    {
        match self {
            Handler::NoOp => Handler::NoOp,
            Handler::Fail(msg) => Handler::Fail(msg.clone()),
            Handler::EchoFirst => Handler::EchoFirst,
        }
    }
}

/// What a handler returns for the given arguments: a success value, or a
/// `HandlerFailure` wrapping the handler's own error description. A handler
/// never produces a dispatcher-level error.
pub open spec fn handler_outcome(h: Handler, args: Seq<Value>) -> Result<Value, ShellError> {
    match h {
        Handler::NoOp => Ok(Value::Null),
        Handler::Fail(msg) => Err(ShellError::HandlerFailure(msg)),
        Handler::EchoFirst => if args.len() > 0 {
            Ok(args[0])
        } else {
            Ok(Value::Null)
        },
    }
}

/// Runs a handler on the given arguments. Total: every handler yields a
/// result, success or its own failure, exactly as `handler_outcome` says.
pub fn run_handler(h: &Handler, args: &Vec<Value>) -> (r: Result<Value, ShellError>)
    ensures
        r == handler_outcome(*h, args@),
{
    match h {
        Handler::NoOp => Ok(Value::Null),
        Handler::Fail(msg) => Err(ShellError::HandlerFailure(msg.clone())),
        Handler::EchoFirst => {
            if args.len() > 0 {
                Ok(args[0].clone())
            } else {
                Ok(Value::Null)
            }
        },
    }
}

/// The bootstrap command of the application: performs no operation and
/// reports success.
pub fn init_database() -> (r: Result<(), String>)
    ensures
        r == Ok::<(), String>(()),
{
    Ok(())
}

} // verus!
