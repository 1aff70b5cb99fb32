//! Failure values shared by the actions and the plan.
use vstd::prelude::*;

verus! {

/// An external process that exited with a non-zero status. `command` is the
/// formatted invocation.
#[derive(Clone, Debug)]
pub struct CommandError {
    pub command: String,
}

/// The rendered message of a failed invocation.
pub open spec fn command_message(command: Seq<char>) -> Seq<char> {
    "Command `"@ + command + "` failed status"@
}

impl CommandError {
    /// The rendered message, naming the invocation.
    pub fn message(&self) -> (r: String)
        ensures
            r@ == command_message(self.command@),
    {
        String::from_str("Command `").concat(self.command.as_str()).concat("` failed status")
    }
}

/// Maps the exit outcome of the invocation `command` to a result: success when
/// the process exited with a zero status, a `CommandError` naming the
/// invocation otherwise.
pub fn check_status(command: String, success: bool) -> (r: Result<(), CommandError>)
    ensures
        success <==> r is Ok,
        !success ==> r->Err_0.command == command,
{
    if success {
        Ok(())
    } else {
        Err(CommandError { command })
    }
}

} // verus!
