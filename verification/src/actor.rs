//! What can go wrong when one actor writes to the mailbox of another.

use vstd::prelude::*;
use vstd::string::*;

verus! {

/// The mailbox of an actor that has stopped.
#[derive(Debug, Clone, Copy, PartialEq, Eq)]
pub struct MailboxClosed;

impl MailboxClosed {
    /// Says what happened.
    pub fn message(&self) -> (text: String)
        ensures
            text@ == "actor mailbox is closed"@,
    {
        "actor mailbox is closed".to_string()
    }
}

} // verus!
