//! Messages on their way through the agent: as fetched, as parsed, and as
//! handed to the mail sender.

use crate::config::{Config, ConfigView};
use crate::error::CycleError;
use crate::screen::{headers_return, headers_return_on, parser_returns, returns_on};
use vstd::prelude::*;

verus! {

/// One unread message as the IMAP server returned it.
///
/// The server is free to leave out either part of a record. A record without
/// a body cannot be forwarded; one without a UID can be forwarded but not
/// marked as read afterwards.
#[derive(Clone, Debug, PartialEq, Eq)]
pub struct UnseenRecord {
    /// The message's identifier within its mailbox.
    pub uid: Option<u32>,
    /// The message exactly as the server stores it.
    pub body: Option<Vec<u8>>,
}

/// The mathematical value of an [`UnseenRecord`].
pub struct UnseenRecordView {
    pub uid: Option<u32>,
    pub body: Option<Seq<u8>>,
}

impl View for UnseenRecord {
    type V = UnseenRecordView;

    open spec fn view(&self) -> UnseenRecordView {
        UnseenRecordView {
            uid: self.uid,
            body: match self.body {
                Some(bytes) => Some(bytes@),
                None => None,
            },
        }
    }
}

impl DeepView for UnseenRecord {
    type V = UnseenRecordView;

    open spec fn deep_view(&self) -> UnseenRecordView {
        self@
    }
}

/// A message that the parser accepted.
///
/// Parsing only decides whether a message is forwarded. What is forwarded
/// are the bytes the server delivered, which this value keeps untouched.
#[derive(Clone, Debug, PartialEq, Eq)]
pub struct ParsedMessage {
    /// The bytes that were parsed.
    pub raw: Vec<u8>,
}

impl View for ParsedMessage {
    type V = Seq<u8>;

    open spec fn view(&self) -> Seq<u8> {
        self.raw@
    }
}

/// A message ready for submission.
#[derive(Clone, Debug, PartialEq, Eq)]
pub struct ForwardMessage {
    /// The envelope sender: the account's own SMTP identity.
    pub from: String,
    /// The envelope recipient: the account's forward target.
    pub to: String,
    /// The message itself, byte for byte as it was fetched.
    pub body: Vec<u8>,
}

/// The mathematical value of a [`ForwardMessage`].
pub struct ForwardMessageView {
    pub from: Seq<char>,
    pub to: Seq<char>,
    pub body: Seq<u8>,
}

impl View for ForwardMessage {
    type V = ForwardMessageView;

    open spec fn view(&self) -> ForwardMessageView {
        ForwardMessageView { from: self.from@, to: self.to@, body: self.body@ }
    }
}

/// Whether the full message parser, given `raw`, returns a message. The
/// verdict is the parser's own.
pub uninterp spec fn message_parses(raw: Seq<u8>) -> bool;

/// Whether the header parser, given `raw`, returns a message. The verdict is
/// the parser's own.
pub uninterp spec fn headers_parse(raw: Seq<u8>) -> bool;

/// Runs `mail_parser::MessageParser::parse`, with the parser's default
/// settings, on `raw` and reports whether it returned a message.
///
/// The call is made only on bytes that pass the screen. On bytes that name
/// no `multipart` content type and no `message` content type, the parser
/// reads one block of headers and decodes a single body, and does not enter
/// its bookkeeping for nested parts. The contract claims that the call then
/// returns, and that its answer depends on the bytes alone.
#[verifier::external_body]
fn parser_accepts(raw: &Vec<u8>) -> (accepted: bool)
    requires
        parser_returns(raw@),
    ensures
        accepted == message_parses(raw@),
{
    mail_parser::MessageParser::default().parse(raw.as_slice()).is_some()
}

/// Runs `mail_parser::MessageParser::parse_headers`, with the parser's
/// default settings, on `raw` and reports whether it returned a message.
///
/// That function stops after the first block of headers and reads no body.
/// The call is made only on bytes that pass the screen for the header
/// parser. The contract claims that the call then returns, and that its
/// answer depends on the bytes alone.
#[verifier::external_body]
fn header_parser_accepts(raw: &Vec<u8>) -> (accepted: bool)
    requires
        headers_return(raw@),
    ensures
        accepted == headers_parse(raw@),
{
    mail_parser::MessageParser::default().parse_headers(raw.as_slice()).is_some()
}

/// The verdict on `raw`: that of the full parser where it is consulted,
/// that of the header parser on the messages that are kept away from the
/// full parser, and a refusal of the messages that are kept away from both.
pub open spec fn accepted_spec(raw: Seq<u8>) -> bool {
    if parser_returns(raw) {
        message_parses(raw)
    } else if headers_return(raw) {
        headers_parse(raw)
    } else {
        false
    }
}

/// A copy of `bytes`.
fn copy_bytes(bytes: &Vec<u8>) -> (copy: Vec<u8>)
    ensures
        copy@ == bytes@,
{
    let copy = bytes.clone();
    assert(copy@ =~= bytes@);
    copy
}

/// What parsing a record yields, given the parser's verdict on its body.
///
/// A record without a body is a fetch failure, whatever the verdict. A body
/// that the parser rejected is a parse failure. An accepted body becomes a
/// [`ParsedMessage`] that holds the body unchanged.
pub open spec fn parse_outcome(record: UnseenRecordView, accepted: bool) -> Result<
    Seq<u8>,
    CycleError,
> {
    match record.body {
        None => Err(CycleError::Fetch),
        Some(bytes) => if accepted {
            Ok(bytes)
        } else {
            Err(CycleError::Parse)
        },
    }
}

/// What [`parse_mail`] yields for a record.
pub open spec fn parse_mail_spec(record: UnseenRecordView) -> Result<Seq<u8>, CycleError> {
    match record.body {
        None => Err(CycleError::Fetch),
        Some(bytes) => parse_outcome(record, accepted_spec(bytes)),
    }
}

/// The view of a parse result.
pub open spec fn parsed_view(parsed: Result<ParsedMessage, CycleError>) -> Result<
    Seq<u8>,
    CycleError,
> {
    match parsed {
        Ok(message) => Ok(message@),
        Err(error) => Err(error),
    }
}

/// Turns the parser's verdict on a record's body into the parse result.
pub fn parsed_from(record: &UnseenRecord, accepted: bool) -> (parsed: Result<
    ParsedMessage,
    CycleError,
>)
    ensures
        parsed_view(parsed) == parse_outcome(record@, accepted),
{
    match &record.body {
        None => Err(CycleError::Fetch),
        Some(bytes) => {
            if accepted {
                Ok(ParsedMessage { raw: copy_bytes(bytes) })
            } else {
                Err(CycleError::Parse)
            }
        },
    }
}

/// Parses one fetched record.
///
/// Fails with [`CycleError::Fetch`] when the record has no body and with
/// [`CycleError::Parse`] when the parser finds no message in the body.
/// Otherwise the result holds the body, byte for byte.
///
/// Any body is taken. A body that names a `multipart` or `message` content
/// type is judged by its headers alone. A body of two gibibytes or more, or
/// one that spells the least 64-bit integer, is refused unread. Every other
/// body is handed to the full parser.
pub fn parse_mail(mail: &UnseenRecord) -> (parsed: Result<ParsedMessage, CycleError>)
    ensures
        parsed_view(parsed) == parse_mail_spec(mail@),
{
    match &mail.body {
        None => Err(CycleError::Fetch),
        Some(bytes) => {
            let accepted = if returns_on(bytes) {
                parser_accepts(bytes)
            } else if headers_return_on(bytes) {
                header_parser_accepts(bytes)
            } else {
                false
            };
            parsed_from(mail, accepted)
        },
    }
}

/// The forward message for `raw` under the account `config`.
pub open spec fn forward_spec(raw: Seq<u8>, config: ConfigView) -> ForwardMessageView {
    ForwardMessageView { from: config.smtp_username, to: config.forward_target, body: raw }
}

/// Wraps a parsed message for forwarding.
///
/// The sender is the account's SMTP user, the recipient the account's
/// forward target, and the body the bytes of the message as they were
/// fetched: nothing is re-encoded on the way.
pub fn build_forward_message(message: &ParsedMessage, config: &Config) -> (forward: ForwardMessage)
    ensures
        forward@ == forward_spec(message@, config@),
        forward@.body == message@,
{
    ForwardMessage {
        from: config.smtp_username.clone(),
        to: config.forward_target.clone(),
        body: copy_bytes(&message.raw),
    }
}

} // verus!
