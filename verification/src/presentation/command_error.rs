//! The error that the user interface receives from a command.

use crate::shared::errors::{SanchayaError, message_prefix, message_text};
use vstd::prelude::*;

verus! {

/// An error as the user interface shows it.
pub struct CommandError {
    pub message: String,
}

impl CommandError {
    /// The command error that carries the message of `e`.
    pub fn from_error(e: SanchayaError) -> (r: CommandError)
        ensures
            message_text(e) matches Some(t) ==> r.message@ == t,
            message_prefix(e).is_prefix_of(r.message@),
    {
        CommandError { message: e.message() }
    }
}

} // verus!
