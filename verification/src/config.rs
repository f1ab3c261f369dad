//! The configuration of one account.

use vstd::prelude::*;

verus! {

/// The port of IMAP over TLS.
pub const IMAP_PORT: u16 = 993;

/// The port of SMTP submission over implicit TLS.
pub const SMTP_PORT: u16 = 465;

/// Everything the agent knows about one account: where to read mail, how to
/// log in there, where to submit mail, and where the mail is forwarded to.
///
/// A configuration does not change while a cycle runs. An empty list of
/// mailboxes is legal; the cycle then opens the session and closes it again.
#[derive(Clone, Debug, Default, PartialEq, Eq)]
pub struct Config {
    pub imap_domain: String,
    pub imap_username: String,
    pub imap_password: String,
    pub smtp_domain: String,
    pub smtp_username: String,
    pub smtp_password: String,
    pub mailboxes: Vec<String>,
    pub forward_target: String,
}

/// The mathematical value of a [`Config`].
pub struct ConfigView {
    pub imap_domain: Seq<char>,
    pub imap_username: Seq<char>,
    pub imap_password: Seq<char>,
    pub smtp_domain: Seq<char>,
    pub smtp_username: Seq<char>,
    pub smtp_password: Seq<char>,
    pub mailboxes: Seq<Seq<char>>,
    pub forward_target: Seq<char>,
}

impl View for Config {
    type V = ConfigView;

    open spec fn view(&self) -> ConfigView {
        ConfigView {
            imap_domain: self.imap_domain@,
            imap_username: self.imap_username@,
            imap_password: self.imap_password@,
            smtp_domain: self.smtp_domain@,
            smtp_username: self.smtp_username@,
            smtp_password: self.smtp_password@,
            mailboxes: self.mailboxes.deep_view(),
            forward_target: self.forward_target@,
        }
    }
}

impl Config {
    /// The name of the mailbox at `index`, if the account has that many.
    pub fn mailbox(&self, index: usize) -> (name: Option<String>)
        ensures
            name.deep_view() == self@.mailbox(index as int),
    {
        if index < self.mailboxes.len() {
            Some(self.mailboxes[index].clone())
        } else {
            None
        }
    }
}

impl ConfigView {
    /// The name of the mailbox at `index`, if the account has that many.
    pub open spec fn mailbox(self, index: int) -> Option<Seq<char>> {
        if 0 <= index < self.mailboxes.len() {
            Some(self.mailboxes[index])
        } else {
            None
        }
    }
}

} // verus!
