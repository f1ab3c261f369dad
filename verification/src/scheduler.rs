//! The scheduler: which account's cycle runs when, and when the agent rests
//! or stops.
//!
//! A round runs one cycle for every account, in the order of the accounts.
//! The outcome of a cycle has no say in what comes next: a failed account
//! is left for the next round and the round goes on with the account after
//! it. After a round the agent stops if its interval is zero, and otherwise
//! sleeps for the interval and starts over.

use crate::error::CycleError;
use vstd::prelude::*;

verus! {

/// What the scheduler is given: how many accounts there are, and how long
/// to rest between two rounds. An interval of zero asks for a single round.
#[derive(Clone, Copy, Debug, PartialEq, Eq)]
pub struct Scheduler {
    pub accounts: usize,
    /// Seconds between the end of one round and the start of the next.
    pub interval: u64,
}

/// Where the scheduler stands.
#[derive(Clone, Copy, Debug, PartialEq, Eq)]
pub enum RoundState {
    /// No round has been started yet.
    Ready,
    /// The cycle of the account at index `account` is running.
    Running { account: usize },
    /// A round is over and the agent is resting.
    Sleeping,
    /// The agent is done for good.
    Stopped,
}

/// What the caller is to do next.
#[derive(Clone, Copy, Debug, PartialEq, Eq)]
pub enum Command {
    /// Run a full cycle for the account at index `account`.
    RunCycle { account: usize },
    /// Rest for this many seconds.
    Sleep { seconds: u64 },
    /// Leave: the one round that was asked for is over.
    Exit,
}

/// What happened when the caller carried out the last command.
#[derive(Clone, Copy, Debug, PartialEq, Eq)]
pub enum Report {
    /// The cycle that was asked for is over, with this outcome.
    CycleEnded { outcome: Result<(), CycleError> },
    /// The rest is over.
    Woke,
}

impl Scheduler {
    /// What follows a round: the end of the agent in oneshot mode, a rest of
    /// `interval` seconds otherwise.
    pub open spec fn round_end_spec(self) -> (RoundState, Command) {
        if self.interval == 0 {
            (RoundState::Stopped, Command::Exit)
        } else {
            (RoundState::Sleeping, Command::Sleep { seconds: self.interval })
        }
    }

    /// Goes on with the account at index `account`, or ends the round when
    /// there is no such account.
    pub open spec fn run_spec(self, account: int) -> (RoundState, Command) {
        if 0 <= account < self.accounts {
            (
                RoundState::Running { account: account as usize },
                Command::RunCycle { account: account as usize },
            )
        } else {
            self.round_end_spec()
        }
    }

    /// The transition function of the scheduler.
    pub open spec fn step_spec(self, state: RoundState, report: Report) -> (RoundState, Command) {
        match state {
            RoundState::Ready => self.run_spec(0),
            RoundState::Running { account } => self.run_spec(account + 1),
            RoundState::Sleeping => self.run_spec(0),
            RoundState::Stopped => (RoundState::Stopped, Command::Exit),
        }
    }

    /// A scheduler for `accounts` accounts that rests `interval` seconds
    /// between rounds, or runs one round only if `interval` is zero.
    pub fn new(accounts: usize, interval: u64) -> (scheduler: Scheduler)
        ensures
            scheduler == (Scheduler { accounts, interval }),
    {
        Scheduler { accounts, interval }
    }

    /// Whether the scheduler runs a single round and stops.
    pub fn oneshot(&self) -> (single: bool)
        ensures
            single == (self.interval == 0),
    {
        self.interval == 0
    }

    /// What follows a round.
    fn round_end(&self) -> (next: (RoundState, Command))
        ensures
            next == self.round_end_spec(),
    {
        if self.interval == 0 {
            (RoundState::Stopped, Command::Exit)
        } else {
            (RoundState::Sleeping, Command::Sleep { seconds: self.interval })
        }
    }

    /// Goes on with the account at index `account`.
    fn run(&self, account: usize) -> (next: (RoundState, Command))
        ensures
            next == self.run_spec(account as int),
    {
        if account < self.accounts {
            (RoundState::Running { account }, Command::RunCycle { account })
        } else {
            self.round_end()
        }
    }

    /// Starts the first round.
    pub fn start(&self) -> (next: (RoundState, Command))
        ensures
            next == self.run_spec(0),
    {
        self.run(0)
    }

    /// Takes the scheduler one step further.
    ///
    /// When a cycle has ended, the account after it is run, whether the
    /// cycle succeeded or failed; after the last account the round ends.
    /// When a round ends, the agent sleeps for the interval, or exits if the
    /// interval is zero. When the rest is over, a new round starts with the
    /// first account. Once stopped, the scheduler stays stopped.
    pub fn step(&self, state: RoundState, report: Report) -> (next: (RoundState, Command))
        ensures
            next == self.step_spec(state, report),
    {
        match state {
            RoundState::Ready => self.run(0),
            RoundState::Running { account } => {
                if account < self.accounts {
                    self.run(account + 1)
                } else {
                    self.round_end()
                }
            },
            RoundState::Sleeping => self.run(0),
            RoundState::Stopped => (RoundState::Stopped, Command::Exit),
        }
    }

    /// The move that the scheduler makes after the first `n` of `reports`,
    /// counted from the start of the first round.
    pub open spec fn move_after(self, reports: Seq<Report>, n: nat) -> (RoundState, Command)
        decreases n,
    {
        if n == 0 {
            self.run_spec(0)
        } else {
            self.step_spec(self.move_after(reports, (n - 1) as nat).0, reports[n - 1])
        }
    }

    /// The number of the move that stands `offset` moves into round
    /// `round`, where a round takes one move for each account and one for
    /// the rest that follows.
    pub open spec fn position(self, round: nat, offset: nat) -> nat {
        round * (self.accounts + 1) as nat + offset
    }
}

/// The outcome of a cycle does not touch the schedule: whatever is reported
/// of the cycle that just ended, and whether it failed or not, the scheduler
/// goes on in the same way.
pub proof fn law_outcome_does_not_matter(
    scheduler: Scheduler,
    state: RoundState,
    first: Report,
    second: Report,
)
    ensures
        scheduler.step_spec(state, first) == scheduler.step_spec(state, second),
{
}

/// A failed account does not hold up the others: after the cycle of any
/// account but the last, the next command is to run the account after it.
pub proof fn law_failure_is_isolated(
    scheduler: Scheduler,
    account: usize,
    outcome: Result<(), CycleError>,
)
    requires
        account + 1 < scheduler.accounts,
    ensures
        scheduler.step_spec(RoundState::Running { account }, Report::CycleEnded { outcome }) == (
            RoundState::Running { account: (account + 1) as usize },
            Command::RunCycle { account: (account + 1) as usize },
        ),
{
}

/// In the first round every account gets its cycle, in order, whatever the
/// cycles before it reported; the round then ends.
pub proof fn law_round_runs_every_account(scheduler: Scheduler, reports: Seq<Report>, n: nat)
    requires
        n <= scheduler.accounts,
    ensures
        scheduler.move_after(reports, n) == scheduler.run_spec(n as int),
        n < scheduler.accounts ==> scheduler.move_after(reports, n).1 == (Command::RunCycle {
            account: n as usize,
        }),
        n == scheduler.accounts ==> scheduler.move_after(reports, n) == scheduler.round_end_spec(),
    decreases n,
{
    if n > 0 {
        law_round_runs_every_account(scheduler, reports, (n - 1) as nat);
    }
}

/// With an interval of zero exactly one round is run: each account's cycle
/// once, in order, then the command to exit, and nothing but that command
/// ever after.
pub proof fn law_oneshot_runs_one_round(scheduler: Scheduler, reports: Seq<Report>, n: nat)
    requires
        scheduler.interval == 0,
    ensures
        n < scheduler.accounts ==> scheduler.move_after(reports, n) == (
            RoundState::Running { account: n as usize },
            Command::RunCycle { account: n as usize },
        ),
        n >= scheduler.accounts ==> scheduler.move_after(reports, n) == (
            RoundState::Stopped,
            Command::Exit,
        ),
    decreases n,
{
    if n <= scheduler.accounts {
        law_round_runs_every_account(scheduler, reports, n);
    } else {
        law_oneshot_runs_one_round(scheduler, reports, (n - 1) as nat);
    }
}

/// With a positive interval the rounds repeat for ever: move `offset` of
/// round `round` runs the account at index `offset`, every round closes
/// with a rest of exactly `interval` seconds, and the scheduler never asks
/// to exit.
pub proof fn law_rounds_repeat(
    scheduler: Scheduler,
    reports: Seq<Report>,
    round: nat,
    offset: nat,
)
    requires
        scheduler.interval > 0,
        offset <= scheduler.accounts,
    ensures
        scheduler.move_after(reports, scheduler.position(round, offset)) == scheduler.run_spec(
            offset as int,
        ),
        offset < scheduler.accounts ==> scheduler.move_after(
            reports,
            scheduler.position(round, offset),
        ).1 == (Command::RunCycle { account: offset as usize }),
        offset == scheduler.accounts ==> scheduler.move_after(
            reports,
            scheduler.position(round, offset),
        ).1 == (Command::Sleep { seconds: scheduler.interval }),
        !(scheduler.move_after(reports, scheduler.position(round, offset)).1 is Exit),
    decreases round, offset,
{
    let period = (scheduler.accounts + 1) as nat;
    let n = scheduler.position(round, offset);
    if offset > 0 {
        law_rounds_repeat(scheduler, reports, round, (offset - 1) as nat);
        assert(n - 1 == scheduler.position(round, (offset - 1) as nat));
    } else if round > 0 {
        law_rounds_repeat(scheduler, reports, (round - 1) as nat, scheduler.accounts as nat);
        assert(round * period == (round - 1) * period + period) by (nonlinear_arith)
            requires
                round > 0,
        ;
        assert(n - 1 == scheduler.position((round - 1) as nat, scheduler.accounts as nat));
    } else {
        assert(round * period == 0) by (nonlinear_arith)
            requires
                round == 0,
        ;
    }
}

} // verus!
