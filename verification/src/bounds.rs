//! How much work one cycle can ask for.
//!
//! A cycle asks for nothing twice. Over any run it opens one session,
//! selects, searches and fetches each mailbox at most once, submits at most
//! one message for every record that a fetch delivered, marks at most the
//! messages it submitted, and logs out at most once. A run in which every
//! request is answered therefore comes to its end.

use crate::config::ConfigView;
use crate::cycle::{step_spec, CycleStateView, EventView};
use crate::laws::{action_after, lemma_run_is_coherent, move_after, state_after};
use vstd::prelude::*;

verus! {

/// One if `holds`, zero otherwise.
pub open spec fn one_if(holds: bool) -> nat {
    if holds {
        1
    } else {
        0
    }
}

/// How many of the moves `0..=n` of a run open a session.
pub open spec fn opens(config: ConfigView, events: Seq<EventView>, n: nat) -> nat
    decreases n,
{
    one_if(action_after(config, events, n) is Open) + if n == 0 {
        0
    } else {
        opens(config, events, (n - 1) as nat)
    }
}

/// How many of the moves `0..=n` of a run select a mailbox.
pub open spec fn selects(config: ConfigView, events: Seq<EventView>, n: nat) -> nat
    decreases n,
{
    one_if(action_after(config, events, n) is Select) + if n == 0 {
        0
    } else {
        selects(config, events, (n - 1) as nat)
    }
}

/// How many of the moves `0..=n` of a run search a mailbox.
pub open spec fn searches(config: ConfigView, events: Seq<EventView>, n: nat) -> nat
    decreases n,
{
    one_if(action_after(config, events, n) is Search) + if n == 0 {
        0
    } else {
        searches(config, events, (n - 1) as nat)
    }
}

/// How many of the moves `0..=n` of a run fetch messages.
pub open spec fn fetches(config: ConfigView, events: Seq<EventView>, n: nat) -> nat
    decreases n,
{
    one_if(action_after(config, events, n) is Fetch) + if n == 0 {
        0
    } else {
        fetches(config, events, (n - 1) as nat)
    }
}

/// How many of the moves `0..=n` of a run submit a message.
pub open spec fn sends(config: ConfigView, events: Seq<EventView>, n: nat) -> nat
    decreases n,
{
    one_if(action_after(config, events, n) is Send) + if n == 0 {
        0
    } else {
        sends(config, events, (n - 1) as nat)
    }
}

/// How many of the moves `0..=n` of a run mark a message as seen.
pub open spec fn stores(config: ConfigView, events: Seq<EventView>, n: nat) -> nat
    decreases n,
{
    one_if(action_after(config, events, n) is Store) + if n == 0 {
        0
    } else {
        stores(config, events, (n - 1) as nat)
    }
}

/// How many of the moves `0..=n` of a run close the session.
pub open spec fn logouts(config: ConfigView, events: Seq<EventView>, n: nat) -> nat
    decreases n,
{
    one_if(action_after(config, events, n) is Logout) + if n == 0 {
        0
    } else {
        logouts(config, events, (n - 1) as nat)
    }
}

/// How many records the first `n` of `events` deliver in all.
pub open spec fn records_in(events: Seq<EventView>, n: nat) -> nat
    decreases n,
{
    if n == 0 {
        0
    } else {
        records_in(events, (n - 1) as nat) + match events[n - 1] {
            EventView::Fetched { records } => records.len(),
            _ => 0,
        }
    }
}

/// How many records of the batch at hand are still to be submitted after
/// the one that `state` is working on.
pub open spec fn waiting(state: CycleStateView) -> int {
    match state {
        CycleStateView::Forwarding { records, index, .. } => records.len() - index - 1,
        CycleStateView::Marking { records, index, .. } => records.len() - index - 1,
        _ => 0,
    }
}

/// How the counts of a run hang together with the state it has reached.
pub open spec fn counted(config: ConfigView, events: Seq<EventView>, n: nat) -> bool {
    let state = state_after(config, events, n);
    let selected = selects(config, events, n);
    let searched = searches(config, events, n);
    let fetched = fetches(config, events, n);
    let sent = sends(config, events, n);
    let stored = stores(config, events, n);
    let closed = logouts(config, events, n);
    &&& opens(config, events, n) == 1
    &&& state is Connecting <==> n == 0
    &&& selected <= config.mailboxes.len()
    &&& searched <= selected
    &&& fetched <= searched
    &&& sent + waiting(state) <= records_in(events, n)
    &&& waiting(state) >= 0
    &&& stored <= sent
    &&& closed <= 1
    &&& match state {
        CycleStateView::Idle => false,
        CycleStateView::Connecting => selected == 0 && sent == 0 && closed == 0,
        CycleStateView::Selecting { mailbox } => {
            &&& selected == mailbox + 1
            &&& searched < selected
            &&& fetched < selected
            &&& closed == 0
        },
        CycleStateView::Searching { mailbox } => {
            &&& selected == mailbox + 1
            &&& fetched < searched
            &&& closed == 0
        },
        CycleStateView::Fetching { mailbox, .. } => selected == mailbox + 1 && closed == 0,
        CycleStateView::Forwarding { mailbox, .. } => {
            &&& selected == mailbox + 1
            &&& stored < sent
            &&& closed == 0
        },
        CycleStateView::Marking { mailbox, .. } => selected == mailbox + 1 && closed == 0,
        CycleStateView::LoggingOut { .. } => closed == 1,
        CycleStateView::LoggedOut { .. } => true,
    }
}

/// The counts of every run hang together with its state.
pub proof fn lemma_run_is_counted(config: ConfigView, events: Seq<EventView>, n: nat)
    ensures
        counted(config, events, n),
    decreases n,
{
    lemma_run_is_coherent(config, events, n);
    if n > 0 {
        let before = (n - 1) as nat;
        lemma_run_is_counted(config, events, before);
        lemma_run_is_coherent(config, events, before);
        assert(move_after(config, events, n) == step_spec(
            config,
            state_after(config, events, before),
            events[n - 1],
        ));
    }
}

/// How many of the moves `0..=n` of a run ask for something: how many are
/// not the end of the cycle.
pub open spec fn requests(config: ConfigView, events: Seq<EventView>, n: nat) -> nat
    decreases n,
{
    one_if(!(action_after(config, events, n) is Finish)) + if n == 0 {
        0
    } else {
        requests(config, events, (n - 1) as nat)
    }
}

/// Every request of a run is of exactly one kind.
pub proof fn lemma_requests_add_up(config: ConfigView, events: Seq<EventView>, n: nat)
    ensures
        requests(config, events, n) == opens(config, events, n) + selects(config, events, n)
            + searches(config, events, n) + fetches(config, events, n) + sends(config, events, n)
            + stores(config, events, n) + logouts(config, events, n),
    decreases n,
{
    if n > 0 {
        lemma_requests_add_up(config, events, (n - 1) as nat);
    }
}

/// One cycle asks for a bounded amount of work. In any run, up to any move,
/// the session is opened once and closed at most once, each of the
/// account's mailboxes is selected, searched and fetched at most once, no
/// more messages are submitted than the fetches delivered records, and no
/// more messages are marked than were submitted.
pub proof fn law_cycle_is_bounded(config: ConfigView, events: Seq<EventView>, n: nat)
    ensures
        opens(config, events, n) == 1,
        selects(config, events, n) <= config.mailboxes.len(),
        searches(config, events, n) <= selects(config, events, n),
        fetches(config, events, n) <= searches(config, events, n),
        sends(config, events, n) <= records_in(events, n),
        stores(config, events, n) <= sends(config, events, n),
        logouts(config, events, n) <= 1,
{
    lemma_run_is_counted(config, events, n);
}

/// A cycle comes to its end. With `m` mailboxes and `k` records delivered
/// by the fetches, a run makes at most `2 + 3 * m + 2 * k` requests; every
/// move beyond those is the end of the cycle.
pub proof fn law_cycle_ends(config: ConfigView, events: Seq<EventView>, n: nat)
    ensures
        requests(config, events, n) <= 2 + 3 * config.mailboxes.len() + 2 * records_in(events, n),
        n >= 2 + 3 * config.mailboxes.len() + 2 * records_in(events, n) ==> action_after(
            config,
            events,
            n,
        ) is Finish,
{
    lemma_run_is_counted(config, events, n);
    lemma_requests_add_up(config, events, n);
    if !(action_after(config, events, n) is Finish) {
        lemma_all_requests_before_the_end(config, events, n);
    }
}

/// Before the end of the cycle every move is a request: the end, once
/// reached, is never left.
pub proof fn lemma_all_requests_before_the_end(
    config: ConfigView,
    events: Seq<EventView>,
    n: nat,
)
    requires
        !(action_after(config, events, n) is Finish),
    ensures
        requests(config, events, n) == n + 1,
    decreases n,
{
    if n > 0 {
        let before = (n - 1) as nat;
        lemma_run_is_coherent(config, events, before);
        lemma_run_is_coherent(config, events, n);
        lemma_all_requests_before_the_end(config, events, before);
    }
}

} // verus!
