//! One account's synchronization cycle as a state machine.
//!
//! A cycle opens the account's IMAP session, visits the account's mailboxes
//! in their configured order, forwards each unread message and marks it as
//! seen once the forward was accepted, and closes the session. The first
//! failure of any step ends the cycle: the session is closed and the
//! mailboxes not yet visited are left for the next round.
//!
//! The machine itself performs no I/O. [`begin`] and [`step`] hand out one
//! [`Action`] at a time; the caller performs it and reports the result as an
//! [`Event`] to the next call of [`step`].

use crate::config::{Config, ConfigView};
use crate::error::CycleError;
use crate::fetch::{unseen_records, unseen_records_spec};
use crate::message::{
    build_forward_message, forward_spec, parse_mail, parse_mail_spec, parsed_view, ParsedMessage,
    UnseenRecord, UnseenRecordView,
};
use crate::request::{
    fetch_request, fetch_unread_mail, mark_as_seen, mark_as_seen_spec, open_session,
    search_unseen, send_mail, send_request, session_request, unseen_query, FetchRequest,
    FetchRequestView, SearchRequest, SendRequest, SendRequestView, SessionRequest,
    SessionRequestView, StoreRequest, StoreRequestView,
};
use vstd::prelude::*;

verus! {

/// What happened when the caller performed the last action.
#[derive(Clone, Debug, PartialEq, Eq)]
pub enum Event {
    /// The session was opened and the login accepted.
    Opened,
    /// The mailbox was selected; `unseen` is what the server said about
    /// unread messages in it, if it said anything.
    Selected { unseen: Option<u32> },
    /// The search completed with these UIDs, in the server's order.
    Found { uids: Vec<u32> },
    /// The fetch completed with these records, in the server's order.
    Fetched { records: Vec<UnseenRecord> },
    /// The SMTP server accepted the message.
    Sent,
    /// The seen flag was set.
    Stored,
    /// The session was closed.
    Closed,
    /// The server rejected the credentials.
    Denied,
    /// The action failed in any other way.
    Failed,
}

/// The mathematical value of an [`Event`].
pub enum EventView {
    Opened,
    Selected { unseen: Option<u32> },
    Found { uids: Seq<u32> },
    Fetched { records: Seq<UnseenRecordView> },
    Sent,
    Stored,
    Closed,
    Denied,
    Failed,
}

impl View for Event {
    type V = EventView;

    open spec fn view(&self) -> EventView {
        match self {
            Event::Opened => EventView::Opened,
            Event::Selected { unseen } => EventView::Selected { unseen: *unseen },
            Event::Found { uids } => EventView::Found { uids: uids@ },
            Event::Fetched { records } => EventView::Fetched { records: records.deep_view() },
            Event::Sent => EventView::Sent,
            Event::Stored => EventView::Stored,
            Event::Closed => EventView::Closed,
            Event::Denied => EventView::Denied,
            Event::Failed => EventView::Failed,
        }
    }
}

/// What the caller is to do next.
#[derive(Debug, PartialEq, Eq)]
pub enum Action {
    /// Open the IMAP session.
    Open(SessionRequest),
    /// Select the mailbox of this name.
    Select { mailbox: String },
    /// Search the selected mailbox for unread messages.
    Search(SearchRequest),
    /// Fetch these messages from the selected mailbox.
    Fetch(FetchRequest),
    /// Submit this message.
    Send(SendRequest),
    /// Mark this message in the selected mailbox as seen.
    Store(StoreRequest),
    /// Close the IMAP session.
    Logout,
    /// Nothing: the cycle is over, with this outcome.
    Finish { outcome: Result<(), CycleError> },
}

/// The mathematical value of an [`Action`].
pub enum ActionView {
    Open(SessionRequestView),
    Select { mailbox: Seq<char> },
    Search(Seq<char>),
    Fetch(FetchRequestView),
    Send(SendRequestView),
    Store(StoreRequestView),
    Logout,
    Finish { outcome: Result<(), CycleError> },
}

impl View for Action {
    type V = ActionView;

    open spec fn view(&self) -> ActionView {
        match self {
            Action::Open(request) => ActionView::Open(request@),
            Action::Select { mailbox } => ActionView::Select { mailbox: mailbox@ },
            Action::Search(request) => ActionView::Search(request@),
            Action::Fetch(request) => ActionView::Fetch(request@),
            Action::Send(request) => ActionView::Send(request@),
            Action::Store(request) => ActionView::Store(request@),
            Action::Logout => ActionView::Logout,
            Action::Finish { outcome } => ActionView::Finish { outcome: *outcome },
        }
    }
}

/// Where a cycle stands. Each state but the first and the last waits for
/// the result of the action that was handed out on entering it.
#[derive(Debug, PartialEq, Eq)]
pub enum CycleState {
    /// Nothing has been done yet.
    Idle,
    /// The session is being opened.
    Connecting,
    /// The mailbox at index `mailbox` is being selected.
    Selecting { mailbox: usize },
    /// The selected mailbox is being searched for unread messages.
    Searching { mailbox: usize },
    /// The messages `uids` of the selected mailbox are being fetched.
    Fetching { mailbox: usize, uids: Vec<u32> },
    /// The record at `index` is being forwarded; those before it are done.
    Forwarding { mailbox: usize, records: Vec<UnseenRecord>, index: usize },
    /// The record at `index` was forwarded and is being marked as seen.
    Marking { mailbox: usize, records: Vec<UnseenRecord>, index: usize },
    /// The session is being closed; `outcome` is already decided.
    LoggingOut { outcome: Result<(), CycleError> },
    /// The cycle is over.
    LoggedOut { outcome: Result<(), CycleError> },
}

/// The mathematical value of a [`CycleState`].
pub enum CycleStateView {
    Idle,
    Connecting,
    Selecting { mailbox: int },
    Searching { mailbox: int },
    Fetching { mailbox: int, uids: Seq<u32> },
    Forwarding { mailbox: int, records: Seq<UnseenRecordView>, index: int },
    Marking { mailbox: int, records: Seq<UnseenRecordView>, index: int },
    LoggingOut { outcome: Result<(), CycleError> },
    LoggedOut { outcome: Result<(), CycleError> },
}

impl View for CycleState {
    type V = CycleStateView;

    open spec fn view(&self) -> CycleStateView {
        match self {
            CycleState::Idle => CycleStateView::Idle,
            CycleState::Connecting => CycleStateView::Connecting,
            CycleState::Selecting { mailbox } => CycleStateView::Selecting {
                mailbox: *mailbox as int,
            },
            CycleState::Searching { mailbox } => CycleStateView::Searching {
                mailbox: *mailbox as int,
            },
            CycleState::Fetching { mailbox, uids } => CycleStateView::Fetching {
                mailbox: *mailbox as int,
                uids: uids@,
            },
            CycleState::Forwarding { mailbox, records, index } => CycleStateView::Forwarding {
                mailbox: *mailbox as int,
                records: records.deep_view(),
                index: *index as int,
            },
            CycleState::Marking { mailbox, records, index } => CycleStateView::Marking {
                mailbox: *mailbox as int,
                records: records.deep_view(),
                index: *index as int,
            },
            CycleState::LoggingOut { outcome } => CycleStateView::LoggingOut { outcome: *outcome },
            CycleState::LoggedOut { outcome } => CycleStateView::LoggedOut { outcome: *outcome },
        }
    }
}

/// A state together with the action handed out on entering it.
pub type Move = (CycleStateView, ActionView);

/// The first move of every cycle: open the session.
pub open spec fn begin_spec(config: ConfigView) -> Move {
    (CycleStateView::Connecting, ActionView::Open(session_request(config)))
}

/// Ends the cycle without a session to close.
pub open spec fn finish_spec(outcome: Result<(), CycleError>) -> Move {
    (CycleStateView::LoggedOut { outcome }, ActionView::Finish { outcome })
}

/// Closes the session; the cycle will end with `outcome`.
pub open spec fn logout_spec(outcome: Result<(), CycleError>) -> Move {
    (CycleStateView::LoggingOut { outcome }, ActionView::Logout)
}

/// Turns to the mailbox at index `mailbox`: selects it, or closes the
/// session with success when the account has no such mailbox.
pub open spec fn enter_mailbox_spec(config: ConfigView, mailbox: int) -> Move {
    match config.mailbox(mailbox) {
        Some(name) => (CycleStateView::Selecting { mailbox }, ActionView::Select { mailbox: name }),
        None => logout_spec(Ok(())),
    }
}

/// Starts on the record at `index`, given the result of parsing it: sends
/// the forward message of a parsed record, and gives up on the cycle with
/// the parse result's error otherwise.
pub open spec fn forward_parsed_spec(
    config: ConfigView,
    mailbox: int,
    records: Seq<UnseenRecordView>,
    index: int,
    parsed: Result<Seq<u8>, CycleError>,
) -> Move {
    match parsed {
        Ok(raw) => (
            CycleStateView::Forwarding { mailbox, records, index },
            ActionView::Send(send_request(forward_spec(raw, config), config)),
        ),
        Err(error) => logout_spec(Err(error)),
    }
}

/// Continues with the record at `index`, or with the next mailbox when no
/// record is left.
pub open spec fn drain_spec(
    config: ConfigView,
    mailbox: int,
    records: Seq<UnseenRecordView>,
    index: int,
) -> Move {
    if 0 <= index < records.len() {
        forward_parsed_spec(config, mailbox, records, index, parse_mail_spec(records[index]))
    } else {
        enter_mailbox_spec(config, mailbox + 1)
    }
}

/// The transition function of the cycle.
pub open spec fn step_spec(config: ConfigView, state: CycleStateView, event: EventView) -> Move {
    match state {
        CycleStateView::Idle => begin_spec(config),
        CycleStateView::Connecting => match event {
            EventView::Opened => enter_mailbox_spec(config, 0),
            EventView::Denied => finish_spec(Err(CycleError::Auth)),
            _ => finish_spec(Err(CycleError::Connection)),
        },
        CycleStateView::Selecting { mailbox } => match event {
            EventView::Selected { unseen } => if none_unseen_spec(unseen) {
                enter_mailbox_spec(config, mailbox + 1)
            } else {
                (CycleStateView::Searching { mailbox }, ActionView::Search(unseen_query()))
            },
            _ => logout_spec(Err(CycleError::Mailbox)),
        },
        CycleStateView::Searching { mailbox } => match event {
            EventView::Found { uids } => if uids.len() == 0 {
                enter_mailbox_spec(config, mailbox + 1)
            } else {
                (
                    CycleStateView::Fetching { mailbox, uids },
                    ActionView::Fetch(fetch_request(uids)),
                )
            },
            _ => logout_spec(Err(CycleError::Fetch)),
        },
        CycleStateView::Fetching { mailbox, uids } => match event {
            EventView::Fetched { records } => match unseen_records_spec(uids, records) {
                Ok(records) => drain_spec(config, mailbox, records, 0),
                Err(error) => logout_spec(Err(error)),
            },
            _ => logout_spec(Err(CycleError::Fetch)),
        },
        CycleStateView::Forwarding { mailbox, records, index } => match event {
            EventView::Sent => if 0 <= index < records.len() {
                match mark_as_seen_spec(records[index]) {
                    Ok(request) => (
                        CycleStateView::Marking { mailbox, records, index },
                        ActionView::Store(request),
                    ),
                    Err(error) => logout_spec(Err(error)),
                }
            } else {
                logout_spec(Err(CycleError::Store))
            },
            _ => logout_spec(Err(CycleError::Send)),
        },
        CycleStateView::Marking { mailbox, records, index } => match event {
            EventView::Stored => drain_spec(config, mailbox, records, index + 1),
            _ => logout_spec(Err(CycleError::Store)),
        },
        CycleStateView::LoggingOut { outcome } => finish_spec(outcome),
        CycleStateView::LoggedOut { outcome } => finish_spec(outcome),
    }
}

/// Whether what a selection said about unseen messages means that there are
/// none: it said nothing, or it said zero.
pub open spec fn none_unseen_spec(unseen: Option<u32>) -> bool {
    unseen.unwrap_or(0) == 0
}

/// Decides whether what a selection said about unseen messages means that
/// there are none.
pub fn none_unseen(unseen: Option<u32>) -> (none: bool)
    ensures
        none == none_unseen_spec(unseen),
{
    match unseen {
        Some(count) => count == 0,
        None => true,
    }
}

/// Starts a cycle: asks for the account's session to be opened.
pub fn begin(config: &Config) -> (next: (CycleState, Action))
    ensures
        (next.0@, next.1@) == begin_spec(config@),
{
    (CycleState::Connecting, Action::Open(open_session(config)))
}

/// Ends the cycle without a session to close.
fn finish(outcome: Result<(), CycleError>) -> (next: (CycleState, Action))
    ensures
        (next.0@, next.1@) == finish_spec(outcome),
{
    (CycleState::LoggedOut { outcome }, Action::Finish { outcome })
}

/// Closes the session; the cycle will end with `outcome`.
fn logout(outcome: Result<(), CycleError>) -> (next: (CycleState, Action))
    ensures
        (next.0@, next.1@) == logout_spec(outcome),
{
    (CycleState::LoggingOut { outcome }, Action::Logout)
}

/// Turns to the mailbox at index `mailbox`.
fn enter_mailbox(config: &Config, mailbox: usize) -> (next: (CycleState, Action))
    ensures
        (next.0@, next.1@) == enter_mailbox_spec(config@, mailbox as int),
{
    match config.mailbox(mailbox) {
        Some(name) => (CycleState::Selecting { mailbox }, Action::Select { mailbox: name }),
        None => logout(Ok(())),
    }
}

/// Turns to the mailbox after the one at index `mailbox`.
fn leave_mailbox(config: &Config, mailbox: usize) -> (next: (CycleState, Action))
    ensures
        (next.0@, next.1@) == enter_mailbox_spec(config@, mailbox + 1),
{
    if mailbox < config.mailboxes.len() {
        enter_mailbox(config, mailbox + 1)
    } else {
        logout(Ok(()))
    }
}

/// Starts on the record at `index` of `records`, given the result of
/// parsing that record.
///
/// A parsed record is wrapped for forwarding and handed out for submission;
/// the machine then waits in `Forwarding`. A record that did not parse ends
/// the cycle: the session is closed and the cycle fails with the parse
/// result's error.
pub fn forward_parsed(
    config: &Config,
    mailbox: usize,
    records: Vec<UnseenRecord>,
    index: usize,
    parsed: Result<ParsedMessage, CycleError>,
) -> (next: (CycleState, Action))
    ensures
        (next.0@, next.1@) == forward_parsed_spec(
            config@,
            mailbox as int,
            records.deep_view(),
            index as int,
            parsed_view(parsed),
        ),
{
    match parsed {
        Ok(message) => {
            let forward = build_forward_message(&message, config);
            (
                CycleState::Forwarding { mailbox, records, index },
                Action::Send(send_mail(forward, config)),
            )
        },
        Err(error) => logout(Err(error)),
    }
}

/// Continues with the record at `index`, or with the next mailbox when no
/// record is left.
fn drain(config: &Config, mailbox: usize, records: Vec<UnseenRecord>, index: usize) -> (next: (
    CycleState,
    Action,
))
    ensures
        (next.0@, next.1@) == drain_spec(
            config@,
            mailbox as int,
            records.deep_view(),
            index as int,
        ),
{
    if index < records.len() {
        let parsed = parse_mail(&records[index]);
        forward_parsed(config, mailbox, records, index, parsed)
    } else {
        leave_mailbox(config, mailbox)
    }
}

/// Takes the cycle one step further: from the state it was in and the result
/// of the last action to the next state and the next action.
///
/// In every state one event means success and lets the cycle go on; any
/// other event is taken as the failure of the action that was under way.
/// - After a failure to open the session the cycle is over at once, as an
///   authentication failure if the server denied the login and a connection
///   failure otherwise.
/// - After any later failure the session is closed and the cycle ends with
///   the error of the step that failed: selecting, searching or fetching,
///   parsing, sending, marking. No further mailbox is selected and no
///   further message is sent or marked.
/// - A mailbox whose selection reports no unseen message, or whose search
///   finds none, is left at once for the next mailbox.
/// - A fetch that leaves one of the UIDs it asked for without a body has
///   failed, and none of its records is forwarded.
/// - A message is marked as seen only in answer to the event that its
///   forward was sent.
/// - When the session has been closed, whether that worked or not, the cycle
///   is over with the outcome decided before.
pub fn step(config: &Config, state: CycleState, event: Event) -> (next: (CycleState, Action))
    ensures
        (next.0@, next.1@) == step_spec(config@, state@, event@),
{
    match state {
        CycleState::Idle => begin(config),
        CycleState::Connecting => match event {
            Event::Opened => enter_mailbox(config, 0),
            Event::Denied => finish(Err(CycleError::Auth)),
            _ => finish(Err(CycleError::Connection)),
        },
        CycleState::Selecting { mailbox } => match event {
            Event::Selected { unseen } => {
                if none_unseen(unseen) {
                    leave_mailbox(config, mailbox)
                } else {
                    (CycleState::Searching { mailbox }, Action::Search(search_unseen()))
                }
            },
            _ => logout(Err(CycleError::Mailbox)),
        },
        CycleState::Searching { mailbox } => match event {
            Event::Found { uids } => {
                if uids.len() == 0 {
                    leave_mailbox(config, mailbox)
                } else {
                    let request = fetch_unread_mail(&uids);
                    (CycleState::Fetching { mailbox, uids }, Action::Fetch(request))
                }
            },
            _ => logout(Err(CycleError::Fetch)),
        },
        CycleState::Fetching { mailbox, uids } => match event {
            Event::Fetched { records } => match unseen_records(&uids, records) {
                Ok(records) => drain(config, mailbox, records, 0),
                Err(error) => logout(Err(error)),
            },
            _ => logout(Err(CycleError::Fetch)),
        },
        CycleState::Forwarding { mailbox, records, index } => match event {
            Event::Sent => {
                if index < records.len() {
                    match mark_as_seen(&records[index]) {
                        Ok(request) => (
                            CycleState::Marking { mailbox, records, index },
                            Action::Store(request),
                        ),
                        Err(error) => logout(Err(error)),
                    }
                } else {
                    logout(Err(CycleError::Store))
                }
            },
            _ => logout(Err(CycleError::Send)),
        },
        CycleState::Marking { mailbox, records, index } => match event {
            Event::Stored => {
                if index < records.len() {
                    drain(config, mailbox, records, index + 1)
                } else {
                    leave_mailbox(config, mailbox)
                }
            },
            _ => logout(Err(CycleError::Store)),
        },
        CycleState::LoggingOut { outcome } => finish(outcome),
        CycleState::LoggedOut { outcome } => finish(outcome),
    }
}

} // verus!
