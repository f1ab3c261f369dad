//! What holds of every cycle, whatever the servers answer.
//!
//! A run of the cycle is fixed by the account's configuration and by the
//! sequence of events that the caller reports. The laws below speak of the
//! moves of such a run: move `0` is the opening move, and move `n` is the
//! machine's answer to the `n`-th event, which is the result of the action
//! of move `n - 1`.

use crate::config::ConfigView;
use crate::cycle::{
    begin_spec, enter_mailbox_spec, finish_spec, logout_spec, step_spec, ActionView,
    CycleStateView, EventView, Move,
};
use crate::error::CycleError;
use crate::fetch::complete;
use crate::message::{forward_spec, parse_mail_spec};
use crate::request::{send_request, store_request};
use vstd::prelude::*;

verus! {

/// The move that the machine makes after the first `n` of `events`.
pub open spec fn move_after(config: ConfigView, events: Seq<EventView>, n: nat) -> Move
    decreases n,
{
    if n == 0 {
        begin_spec(config)
    } else {
        step_spec(config, move_after(config, events, (n - 1) as nat).0, events[n - 1])
    }
}

/// The state after the first `n` of `events`.
pub open spec fn state_after(config: ConfigView, events: Seq<EventView>, n: nat) -> CycleStateView {
    move_after(config, events, n).0
}

/// The action handed out after the first `n` of `events`.
pub open spec fn action_after(config: ConfigView, events: Seq<EventView>, n: nat) -> ActionView {
    move_after(config, events, n).1
}

/// Whether `event`, reported in `state`, says that the mailbox at hand holds
/// no unread message: its selection reports none, or its search finds none.
pub open spec fn nothing_unseen(state: CycleStateView, event: EventView) -> bool {
    match (state, event) {
        (CycleStateView::Selecting { .. }, EventView::Selected { unseen }) => unseen.unwrap_or(0)
            == 0,
        (CycleStateView::Searching { .. }, EventView::Found { uids }) => uids.len() == 0,
        _ => false,
    }
}

/// The index of the mailbox that `state` is working on.
pub open spec fn mailbox_of(state: CycleStateView) -> int {
    match state {
        CycleStateView::Selecting { mailbox } => mailbox,
        CycleStateView::Searching { mailbox } => mailbox,
        CycleStateView::Fetching { mailbox, .. } => mailbox,
        CycleStateView::Forwarding { mailbox, .. } => mailbox,
        CycleStateView::Marking { mailbox, .. } => mailbox,
        _ => -1,
    }
}

/// Whether `action` talks to a mail server about a mailbox or a message.
pub open spec fn is_mail_work(action: ActionView) -> bool {
    action is Select || action is Search || action is Fetch || action is Send || action is Store
}

/// Whether a move fits together: whether its action is the one that its
/// state waits for.
pub open spec fn coherent(config: ConfigView, step: Move) -> bool {
    match step.0 {
        CycleStateView::Idle => false,
        CycleStateView::Connecting => step.1 is Open,
        CycleStateView::Selecting { mailbox } => config.mailbox(mailbox) is Some && step.1
            == (ActionView::Select { mailbox: config.mailbox(mailbox).unwrap() }),
        CycleStateView::Searching { .. } => step.1 is Search,
        CycleStateView::Fetching { .. } => step.1 is Fetch,
        CycleStateView::Forwarding { records, index, .. } => {
            &&& 0 <= index < records.len()
            &&& parse_mail_spec(records[index]) is Ok
            &&& records[index].body == Some(parse_mail_spec(records[index]).unwrap())
            &&& step.1 == ActionView::Send(
                send_request(forward_spec(parse_mail_spec(records[index]).unwrap(), config), config),
            )
        },
        CycleStateView::Marking { records, index, .. } => {
            &&& 0 <= index < records.len()
            &&& records[index].uid is Some
            &&& step.1 == ActionView::Store(store_request(records[index].uid.unwrap()))
        },
        CycleStateView::LoggingOut { .. } => step.1 is Logout,
        CycleStateView::LoggedOut { outcome } => step.1 == (ActionView::Finish { outcome }),
    }
}

/// Every move of the machine fits together, from whatever state it was made.
pub proof fn lemma_step_is_coherent(config: ConfigView, state: CycleStateView, event: EventView)
    ensures
        coherent(config, step_spec(config, state, event)),
{
}

/// Every move of a run fits together.
pub proof fn lemma_run_is_coherent(config: ConfigView, events: Seq<EventView>, n: nat)
    ensures
        coherent(config, move_after(config, events, n)),
{
    if n > 0 {
        lemma_step_is_coherent(
            config,
            move_after(config, events, (n - 1) as nat).0,
            events[n - 1],
        );
    }
}

/// A mailbox without unread messages costs no submission and no store: the
/// very next move selects the following mailbox, or closes the session with
/// success when the mailbox was the account's last.
pub proof fn law_empty_mailbox_is_skipped(
    config: ConfigView,
    state: CycleStateView,
    event: EventView,
)
    requires
        nothing_unseen(state, event),
    ensures
        step_spec(config, state, event) == enter_mailbox_spec(config, mailbox_of(state) + 1),
        !(step_spec(config, state, event).1 is Send),
        !(step_spec(config, state, event).1 is Store),
        step_spec(config, state, event).1 is Select || step_spec(config, state, event)
            == logout_spec(Ok(())),
{
}

/// What is submitted is what was fetched: whenever the machine hands out a
/// message for submission, the body of that message is, byte for byte, the
/// body of the record it is forwarding, the sender is the account's SMTP
/// user and the recipient the account's forward target.
pub proof fn law_forward_is_byte_identical(
    config: ConfigView,
    state: CycleStateView,
    event: EventView,
)
    ensures
        step_spec(config, state, event).1 matches ActionView::Send(send) ==> {
            &&& step_spec(config, state, event).0 matches CycleStateView::Forwarding {
                records,
                index,
                ..
            }
            &&& 0 <= index < records.len()
            &&& records[index].body == Some(send.message.body)
            &&& send.message.from == config.smtp_username
            &&& send.message.to == config.forward_target
        },
        forall|raw: Seq<u8>| (#[trigger] forward_spec(raw, config)).body == raw,
{
    lemma_step_is_coherent(config, state, event);
}

/// A message is marked as seen if and only if its forward has just been
/// sent with success.
///
/// The machine asks for a store exactly when it is told that the submission
/// it was waiting for went through and the forwarded record carries a UID.
/// The store then names that record's UID and nothing else.
pub proof fn law_store_answers_sent(config: ConfigView, state: CycleStateView, event: EventView)
    ensures
        step_spec(config, state, event).1 is Store <==> {
            &&& event is Sent
            &&& state matches CycleStateView::Forwarding { records, index, .. }
            &&& 0 <= index < records.len()
            &&& records[index].uid is Some
        },
        step_spec(config, state, event).1 matches ActionView::Store(request) ==> {
            &&& state matches CycleStateView::Forwarding { records, index, .. }
            &&& records[index].uid == Some(request.uid)
            &&& request == store_request(request.uid)
        },
{
}

/// In a run, every store follows directly on the successful submission of
/// the very message it marks, and every successful submission of a message
/// with a UID is followed directly by the store for it.
///
/// So the order is never reversed, and no message is marked whose forward
/// was not sent, or was refused.
pub proof fn law_mark_follows_send(config: ConfigView, events: Seq<EventView>, n: nat)
    requires
        1 <= n <= events.len(),
    ensures
        action_after(config, events, n) matches ActionView::Store(store) ==> {
            &&& events[n - 1] is Sent
            &&& action_after(config, events, (n - 1) as nat) matches ActionView::Send(send)
            &&& state_after(config, events, (n - 1) as nat) matches CycleStateView::Forwarding {
                records,
                index,
                ..
            }
            &&& 0 <= index < records.len()
            &&& records[index].uid == Some(store.uid)
            &&& records[index].body == Some(send.message.body)
        },
        (action_after(config, events, (n - 1) as nat) is Send && events[n - 1] is Sent) ==> {
            &&& state_after(config, events, (n - 1) as nat) matches CycleStateView::Forwarding {
                records,
                index,
                ..
            }
            &&& 0 <= index < records.len()
            &&& match records[index].uid {
                Some(uid) => action_after(config, events, n) == ActionView::Store(
                    store_request(uid),
                ),
                None => move_after(config, events, n) == logout_spec(Err(CycleError::Store)),
            }
        },
        (action_after(config, events, (n - 1) as nat) is Send && !(events[n - 1] is Sent))
            ==> !(action_after(config, events, n) is Store),
{
    lemma_run_is_coherent(config, events, (n - 1) as nat);
    law_store_answers_sent(config, state_after(config, events, (n - 1) as nat), events[n - 1]);
}

/// Once the session is being closed the cycle does nothing more: whatever is
/// reported from then on, every later move is the end of the cycle with the
/// outcome that was decided when the closing began.
pub proof fn law_closing_is_final(config: ConfigView, events: Seq<EventView>, n: nat, m: nat)
    requires
        n < m,
        state_after(config, events, n) is LoggingOut || state_after(config, events, n) is LoggedOut,
    ensures
        move_after(config, events, m) == finish_spec(outcome_of(state_after(config, events, n))),
        !is_mail_work(action_after(config, events, m)),
    decreases m,
{
    if m > n + 1 {
        law_closing_is_final(config, events, n, (m - 1) as nat);
    }
}

/// The outcome that a closing or closed cycle has settled on.
pub open spec fn outcome_of(state: CycleStateView) -> Result<(), CycleError> {
    match state {
        CycleStateView::LoggingOut { outcome } => outcome,
        CycleStateView::LoggedOut { outcome } => outcome,
        _ => Ok(()),
    }
}

/// A failed submission ends the cycle. The next move closes the session,
/// and no later move selects a mailbox, searches, fetches, sends or marks:
/// the messages after the failed one and the mailboxes after the current
/// one are left alone. The cycle's outcome is the send failure.
pub proof fn law_failed_send_ends_cycle(
    config: ConfigView,
    events: Seq<EventView>,
    n: nat,
    m: nat,
)
    requires
        1 <= n <= m,
        action_after(config, events, (n - 1) as nat) is Send,
        !(events[n - 1] is Sent),
    ensures
        move_after(config, events, n) == logout_spec(Err(CycleError::Send)),
        m > n ==> move_after(config, events, m) == finish_spec(Err(CycleError::Send)),
        !is_mail_work(action_after(config, events, m)),
{
    lemma_run_is_coherent(config, events, (n - 1) as nat);
    if m > n {
        law_closing_is_final(config, events, n, m);
    }
}

/// Any failure after the session was opened ends the cycle in the same way:
/// an event that is not the awaited success, or a fetch that leaves a UID
/// without a body, makes the next move close the session with the error of
/// the failed step, and nothing but the end of the cycle follows.
pub proof fn law_first_failure_ends_cycle(
    config: ConfigView,
    events: Seq<EventView>,
    n: nat,
    m: nat,
)
    requires
        1 <= n <= m,
        is_mail_work(action_after(config, events, (n - 1) as nat)),
        !awaited(state_after(config, events, (n - 1) as nat), events[n - 1]),
    ensures
        move_after(config, events, n) == logout_spec(
            Err(error_of(state_after(config, events, (n - 1) as nat))),
        ),
        m > n ==> move_after(config, events, m) == finish_spec(
            Err(error_of(state_after(config, events, (n - 1) as nat))),
        ),
        !is_mail_work(action_after(config, events, m)),
{
    lemma_run_is_coherent(config, events, (n - 1) as nat);
    if m > n {
        law_closing_is_final(config, events, n, m);
    }
}

/// Whether `event` reports the success of the action that `state` waits
/// for. A fetch has succeeded only if its records are complete for the UIDs
/// that were asked for.
pub open spec fn awaited(state: CycleStateView, event: EventView) -> bool {
    match state {
        CycleStateView::Connecting => event is Opened,
        CycleStateView::Selecting { .. } => event is Selected,
        CycleStateView::Searching { .. } => event is Found,
        CycleStateView::Fetching { uids, .. } => event matches EventView::Fetched { records }
            && complete(uids, records),
        CycleStateView::Forwarding { .. } => event is Sent,
        CycleStateView::Marking { .. } => event is Stored,
        _ => true,
    }
}

/// The error with which the cycle ends when the action that `state` waits
/// for fails.
pub open spec fn error_of(state: CycleStateView) -> CycleError {
    match state {
        CycleStateView::Selecting { .. } => CycleError::Mailbox,
        CycleStateView::Searching { .. } => CycleError::Fetch,
        CycleStateView::Fetching { .. } => CycleError::Fetch,
        CycleStateView::Forwarding { .. } => CycleError::Send,
        CycleStateView::Marking { .. } => CycleError::Store,
        _ => CycleError::Connection,
    }
}

/// The session is always closed before the cycle ends: the end of a cycle
/// follows directly on the logout, save when the session could not be
/// opened in the first place.
pub proof fn law_session_is_closed(config: ConfigView, events: Seq<EventView>, n: nat)
    requires
        1 <= n,
        action_after(config, events, n) is Finish,
    ensures
        action_after(config, events, (n - 1) as nat) is Logout || action_after(
            config,
            events,
            (n - 1) as nat,
        ) is Finish || (action_after(config, events, (n - 1) as nat) is Open && !(events[n - 1]
            is Opened)),
{
    lemma_run_is_coherent(config, events, (n - 1) as nat);
}

/// The mailboxes are visited in their configured order, none of them twice:
/// the mailbox that a later move works on never comes before the mailbox of
/// an earlier move, and each selection is that of the configured name.
pub proof fn law_mailboxes_in_order(config: ConfigView, events: Seq<EventView>, n: nat, m: nat)
    requires
        n <= m,
        is_mail_work(action_after(config, events, m)),
    ensures
        is_mail_work(action_after(config, events, n)) ==> mailbox_of(
            state_after(config, events, n),
        ) <= mailbox_of(state_after(config, events, m)),
        0 <= mailbox_of(state_after(config, events, m)) < config.mailboxes.len(),
        action_after(config, events, m) is Select ==> action_after(config, events, m)
            == (ActionView::Select {
            mailbox: config.mailboxes[mailbox_of(state_after(config, events, m))],
        }),
        (n < m && action_after(config, events, n) is Select && action_after(config, events, m)
            is Select) ==> mailbox_of(state_after(config, events, n)) < mailbox_of(
            state_after(config, events, m),
        ),
    decreases m,
{
    lemma_run_is_coherent(config, events, m);
    lemma_mailbox_in_range(config, events, m);
    if n < m {
        let before = (m - 1) as nat;
        lemma_run_is_coherent(config, events, before);
        if is_mail_work(action_after(config, events, before)) {
            law_mailboxes_in_order(config, events, n, before);
        } else if before > 0 {
            lemma_run_is_coherent(config, events, (before - 1) as nat);
        }
    }
}

/// While a cycle is at work on a mailbox, that mailbox is one of the
/// account's.
pub proof fn lemma_mailbox_in_range(config: ConfigView, events: Seq<EventView>, n: nat)
    requires
        is_mail_work(action_after(config, events, n)),
    ensures
        0 <= mailbox_of(state_after(config, events, n)) < config.mailboxes.len(),
    decreases n,
{
    lemma_run_is_coherent(config, events, n);
    if n > 0 {
        let before = (n - 1) as nat;
        lemma_run_is_coherent(config, events, before);
        if is_mail_work(action_after(config, events, before)) {
            lemma_mailbox_in_range(config, events, before);
        }
    }
}

} // verus!
