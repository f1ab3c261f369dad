//! Decision logic of a mail relay agent.
//!
//! For each configured account the agent opens an IMAP session, walks the
//! account's mailboxes, forwards every unread message through SMTP and marks
//! it as read once the forward has been accepted. This crate holds the
//! decisions of that process as pure, verified functions: what to ask the
//! mail servers for, and what to do with each answer. Network traffic is left
//! to the caller, which performs every [`cycle::Action`] it is handed and
//! reports back what happened as an [`cycle::Event`].

pub mod bounds;
pub mod config;
pub mod cycle;
pub mod error;
pub mod fetch;
pub mod laws;
pub mod message;
pub mod request;
pub mod scheduler;
pub mod screen;
pub mod uid;
