//! The ways in which one account's cycle can fail.

use vstd::prelude::*;

verus! {

/// Why an account's cycle was abandoned.
///
/// Every kind ends the current cycle of the current account only; the account
/// is tried again from scratch in the next round.
#[derive(Clone, Copy, Debug, PartialEq, Eq, Structural)]
pub enum CycleError {
    /// The IMAP server could not be reached or the TLS handshake failed.
    Connection,
    /// The IMAP server rejected the account's credentials.
    Auth,
    /// A mailbox does not exist or could not be selected.
    Mailbox,
    /// Searching for unread messages or fetching them failed, or the server
    /// answered with a record that carries no message body.
    Fetch,
    /// A fetched message is not well-formed enough to be forwarded.
    Parse,
    /// The SMTP submission failed; nothing was forwarded.
    Send,
    /// The message was forwarded but could not be marked as read.
    Store,
}

impl CycleError {
    /// A short description for log lines.
    pub fn describe(&self) -> (text: &'static str)
        ensures
            text@ == describe_spec(*self),
    {
        match self {
            CycleError::Connection => "could not connect to the IMAP server",
            CycleError::Auth => "the IMAP server rejected the credentials",
            CycleError::Mailbox => "could not select the mailbox",
            CycleError::Fetch => "could not fetch the unread messages",
            CycleError::Parse => "could not parse message",
            CycleError::Send => "could not send the forward message",
            CycleError::Store => "could not mark the message as seen",
        }
    }
}

/// The text that [`CycleError::describe`] gives for each kind.
pub open spec fn describe_spec(error: CycleError) -> Seq<char> {
    match error {
        CycleError::Connection => "could not connect to the IMAP server"@,
        CycleError::Auth => "the IMAP server rejected the credentials"@,
        CycleError::Mailbox => "could not select the mailbox"@,
        CycleError::Fetch => "could not fetch the unread messages"@,
        CycleError::Parse => "could not parse message"@,
        CycleError::Send => "could not send the forward message"@,
        CycleError::Store => "could not mark the message as seen"@,
    }
}

} // verus!
