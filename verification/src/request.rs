//! What the agent asks of the mail servers.
//!
//! Each request is a plain value that names everything the caller needs to
//! perform it: hosts, ports, credentials and the exact protocol arguments.

use crate::config::{Config, ConfigView, IMAP_PORT, SMTP_PORT};
use crate::error::CycleError;
use crate::message::{ForwardMessage, ForwardMessageView, UnseenRecord, UnseenRecordView};
use crate::uid::{decimal, uid_set, uid_set_text, uid_text};
use vstd::prelude::*;
use vstd::string::*;

verus! {

/// The search criterion that matches the messages without the seen flag.
pub open spec fn unseen_query() -> Seq<char> {
    "NOT SEEN"@
}

/// The fetch attribute that asks for a whole message without marking it as
/// seen.
pub open spec fn body_query() -> Seq<char> {
    "BODY.PEEK[]"@
}

/// The store argument that adds the seen flag.
pub open spec fn seen_flags() -> Seq<char> {
    "+FLAGS (\\Seen)"@
}

/// How to open the IMAP session of an account: connect to `host:port` over
/// TLS, validate the certificate against `host`, then log in.
#[derive(Clone, Debug, PartialEq, Eq)]
pub struct SessionRequest {
    pub host: String,
    pub port: u16,
    pub username: String,
    pub password: String,
}

/// The mathematical value of a [`SessionRequest`].
pub struct SessionRequestView {
    pub host: Seq<char>,
    pub port: u16,
    pub username: Seq<char>,
    pub password: Seq<char>,
}

impl View for SessionRequest {
    type V = SessionRequestView;

    open spec fn view(&self) -> SessionRequestView {
        SessionRequestView {
            host: self.host@,
            port: self.port,
            username: self.username@,
            password: self.password@,
        }
    }
}

/// A UID search in the selected mailbox.
#[derive(Clone, Debug, PartialEq, Eq)]
pub struct SearchRequest {
    pub query: String,
}

impl View for SearchRequest {
    type V = Seq<char>;

    open spec fn view(&self) -> Seq<char> {
        self.query@
    }
}

/// A UID fetch in the selected mailbox: one round trip for all of `uid_set`.
#[derive(Clone, Debug, PartialEq, Eq)]
pub struct FetchRequest {
    pub uid_set: String,
    pub query: String,
}

/// The mathematical value of a [`FetchRequest`].
pub struct FetchRequestView {
    pub uid_set: Seq<char>,
    pub query: Seq<char>,
}

impl View for FetchRequest {
    type V = FetchRequestView;

    open spec fn view(&self) -> FetchRequestView {
        FetchRequestView { uid_set: self.uid_set@, query: self.query@ }
    }
}

/// A UID store in the selected mailbox that marks one message as seen.
#[derive(Clone, Debug, PartialEq, Eq)]
pub struct StoreRequest {
    /// The message to mark.
    pub uid: u32,
    /// The same UID as the command spells it.
    pub uid_set: String,
    pub flags: String,
}

/// The mathematical value of a [`StoreRequest`].
pub struct StoreRequestView {
    pub uid: u32,
    pub uid_set: Seq<char>,
    pub flags: Seq<char>,
}

impl View for StoreRequest {
    type V = StoreRequestView;

    open spec fn view(&self) -> StoreRequestView {
        StoreRequestView { uid: self.uid, uid_set: self.uid_set@, flags: self.flags@ }
    }
}

/// One SMTP submission: open a connection to `host:port`, authenticate with
/// the plain credentials, transmit `message`, close the connection.
#[derive(Clone, Debug, PartialEq, Eq)]
pub struct SendRequest {
    pub host: String,
    pub port: u16,
    /// TLS from the first byte, not negotiated after a plain-text greeting.
    pub implicit_tls: bool,
    pub username: String,
    pub password: String,
    pub message: ForwardMessage,
}

/// The mathematical value of a [`SendRequest`].
pub struct SendRequestView {
    pub host: Seq<char>,
    pub port: u16,
    pub implicit_tls: bool,
    pub username: Seq<char>,
    pub password: Seq<char>,
    pub message: ForwardMessageView,
}

impl View for SendRequest {
    type V = SendRequestView;

    open spec fn view(&self) -> SendRequestView {
        SendRequestView {
            host: self.host@,
            port: self.port,
            implicit_tls: self.implicit_tls,
            username: self.username@,
            password: self.password@,
            message: self.message@,
        }
    }
}

/// The session request of an account.
pub open spec fn session_request(config: ConfigView) -> SessionRequestView {
    SessionRequestView {
        host: config.imap_domain,
        port: IMAP_PORT,
        username: config.imap_username,
        password: config.imap_password,
    }
}

/// The fetch request for `uids`.
pub open spec fn fetch_request(uids: Seq<u32>) -> FetchRequestView {
    FetchRequestView { uid_set: uid_set(uids), query: body_query() }
}

/// The store request that marks `uid` as seen.
pub open spec fn store_request(uid: u32) -> StoreRequestView {
    StoreRequestView { uid, uid_set: decimal(uid as nat), flags: seen_flags() }
}

/// What marking a record as seen asks for: a store request for the record's
/// UID, or a store failure when the record has none.
pub open spec fn mark_as_seen_spec(record: UnseenRecordView) -> Result<
    StoreRequestView,
    CycleError,
> {
    match record.uid {
        Some(uid) => Ok(store_request(uid)),
        None => Err(CycleError::Store),
    }
}

/// The send request for `message` on behalf of an account.
pub open spec fn send_request(message: ForwardMessageView, config: ConfigView) -> SendRequestView {
    SendRequestView {
        host: config.smtp_domain,
        port: SMTP_PORT,
        implicit_tls: true,
        username: config.smtp_username,
        password: config.smtp_password,
        message,
    }
}

/// The view of a store request or the failure in its place.
pub open spec fn store_view(request: Result<StoreRequest, CycleError>) -> Result<
    StoreRequestView,
    CycleError,
> {
    match request {
        Ok(request) => Ok(request@),
        Err(error) => Err(error),
    }
}

/// Says how to open the account's IMAP session: TLS to the IMAP host on port
/// 993, then a login with the IMAP credentials.
pub fn open_session(config: &Config) -> (request: SessionRequest)
    ensures
        request@ == session_request(config@),
{
    SessionRequest {
        host: config.imap_domain.clone(),
        port: IMAP_PORT,
        username: config.imap_username.clone(),
        password: config.imap_password.clone(),
    }
}

/// Asks for the UIDs of the messages that do not carry the seen flag.
pub fn search_unseen() -> (request: SearchRequest)
    ensures
        request@ == unseen_query(),
{
    SearchRequest { query: "NOT SEEN".to_owned() }
}

/// Asks for the full content of the messages `uids` in one batch, without
/// changing their flags.
pub fn fetch_unread_mail(uids: &Vec<u32>) -> (request: FetchRequest)
    ensures
        request@ == fetch_request(uids@),
{
    FetchRequest { uid_set: uid_set_text(uids), query: "BODY.PEEK[]".to_owned() }
}

/// Asks to mark the message of `fetch` as seen.
///
/// Fails with [`CycleError::Store`] when the record carries no UID: there is
/// then no way to name the message to the server.
pub fn mark_as_seen(fetch: &UnseenRecord) -> (request: Result<StoreRequest, CycleError>)
    ensures
        store_view(request) == mark_as_seen_spec(fetch@),
{
    match fetch.uid {
        Some(uid) => Ok(
            StoreRequest { uid, uid_set: uid_text(uid), flags: "+FLAGS (\\Seen)".to_owned() },
        ),
        None => Err(CycleError::Store),
    }
}

/// Says how to submit `message`: implicit TLS to the SMTP host on port 465,
/// plain authentication with the SMTP credentials, one message per
/// connection.
pub fn send_mail(message: ForwardMessage, config: &Config) -> (request: SendRequest)
    ensures
        request@ == send_request(message@, config@),
{
    SendRequest {
        host: config.smtp_domain.clone(),
        port: SMTP_PORT,
        implicit_tls: true,
        username: config.smtp_username.clone(),
        password: config.smtp_password.clone(),
        message,
    }
}

} // verus!
