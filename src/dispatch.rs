//! The poll cycle and its bounded-concurrency gate, as a state machine.
//!
//! The driver asks for the next command and performs it: it polls the
//! mailbox and reports what came back, launches the pipeline unit of one
//! fetched message, waits until some running unit completes and reports its
//! outcome, or sleeps. The machine holds `limit` permits; a unit holds one
//! from its launch until its completion is reported.
use vstd::prelude::*;
use crate::shard::{owned_positions, owned_positions_spec};

verus! {

/// Where the cycle stands.
#[derive(Clone, Copy, Debug, PartialEq, Eq, Structural)]
pub enum Phase {
    /// The next command polls the mailbox.
    Polling,
    /// Owned messages of the last poll are being launched.
    Dispatching,
    /// The last poll failed; the next command waits out the backoff.
    Backoff,
}

/// What the driver does next.
#[derive(Clone, Copy, Debug, PartialEq, Eq, Structural)]
pub enum Command {
    /// Fetch the unread messages, then report them with `fetched` or the
    /// failure with `fetch_failed`.
    Poll,
    /// Start the pipeline unit of the fetched message at this position.
    Launch(usize),
    /// Every permit is held: wait until a unit completes and report it with
    /// `unit_finished`.
    AwaitCompletion,
    /// Sleep this many seconds.
    Sleep(u64),
}

/// How a pipeline unit ended.
#[derive(Clone, Copy, Debug, PartialEq, Eq, Structural)]
pub enum UnitOutcome {
    /// Classified, and the notification was delivered.
    Notified,
    /// Classified, but delivering the notification failed.
    NotifyFailed,
    /// Classification failed or timed out; nothing was sent.
    ClassifyFailed,
}

/// The settings of one worker.
pub struct ShardConfig {
    /// This worker's shard, below `total`.
    pub worker_id: u64,
    /// The number of cooperating workers, at least 1.
    pub total: u64,
    /// The number of permits, at least 1.
    pub concurrency: usize,
    /// Seconds to sleep after a poll cycle.
    pub poll_interval_secs: u64,
    /// Seconds to wait before polling again after a failed poll.
    pub backoff_secs: u64,
}

impl ShardConfig {
    /// Whether the settings can run a worker.
    pub open spec fn valid(&self) -> bool {
        &&& self.total >= 1
        &&& self.worker_id < self.total
        &&& self.concurrency >= 1
    }

    /// Checks the settings: `None` when there are no workers, when the worker
    /// id is not below the worker count, or when there are no permits.
    pub fn new(
        worker_id: u64,
        total: u64,
        concurrency: usize,
        poll_interval_secs: u64,
        backoff_secs: u64,
    ) -> (r: Option<ShardConfig>)
        ensures
            r is Some <==> (total >= 1 && worker_id < total && concurrency >= 1),
            r is Some ==> r->0.valid() && r->0.worker_id == worker_id && r->0.total == total
                && r->0.concurrency == concurrency && r->0.poll_interval_secs == poll_interval_secs
                && r->0.backoff_secs == backoff_secs,
    {
        if total >= 1 && worker_id < total && concurrency >= 1 {
            Some(ShardConfig { worker_id, total, concurrency, poll_interval_secs, backoff_secs })
        } else {
            None
        }
    }
}

/// The abstract state of a dispatcher.
pub struct DispatchView {
    pub limit: nat,
    pub in_flight: nat,
    pub queue: Seq<usize>,
    pub next: nat,
    pub phase: Phase,
    pub poll_secs: u64,
    pub backoff_secs: u64,
}

/// A state that the dispatcher can be in: no more units run than there are
/// permits, and the launch cursor stays within the queue.
pub open spec fn view_wf(v: DispatchView) -> bool {
    &&& v.limit >= 1
    &&& v.in_flight <= v.limit
    &&& v.next <= v.queue.len()
    &&& v.phase != Phase::Dispatching ==> v.queue.len() == 0 && v.next == 0
}

/// The command that follows a state, and the state after it is issued.
pub open spec fn next_spec(v: DispatchView) -> (DispatchView, Command) {
    match v.phase {
        Phase::Polling => (v, Command::Poll),
        Phase::Backoff => (DispatchView { phase: Phase::Polling, ..v }, Command::Sleep(v.backoff_secs)),
        Phase::Dispatching => if v.next < v.queue.len() {
            if v.in_flight < v.limit {
                (
                    DispatchView { in_flight: v.in_flight + 1, next: v.next + 1, ..v },
                    Command::Launch(v.queue[v.next as int]),
                )
            } else {
                (v, Command::AwaitCompletion)
            }
        } else {
            (
                DispatchView { phase: Phase::Polling, queue: Seq::empty(), next: 0, ..v },
                Command::Sleep(v.poll_secs),
            )
        },
    }
}

/// The state after a poll returned, with `owned` the positions of the
/// fetched messages that this worker owns. Outside `Polling` nothing changes.
pub open spec fn fetched_spec(v: DispatchView, owned: Seq<usize>) -> DispatchView {
    if v.phase == Phase::Polling {
        DispatchView { phase: Phase::Dispatching, queue: owned, next: 0, ..v }
    } else {
        v
    }
}

/// The state after a poll failed. Outside `Polling` nothing changes.
pub open spec fn failed_spec(v: DispatchView) -> DispatchView {
    if v.phase == Phase::Polling {
        DispatchView { phase: Phase::Backoff, ..v }
    } else {
        v
    }
}

/// The state after a running unit completed with `outcome`: its permit
/// returns to the pool, whatever the outcome.
pub open spec fn finish_spec(v: DispatchView, outcome: UnitOutcome) -> DispatchView {
    DispatchView { in_flight: (v.in_flight - 1) as nat, ..v }
}

/// The poll cycle of one worker and its permit pool.
pub struct Dispatcher {
    config: ShardConfig,
    in_flight: usize,
    queue: Vec<usize>,
    next: usize,
    phase: Phase,
}

impl View for Dispatcher {
    type V = DispatchView;

    closed spec fn view(&self) -> DispatchView {
        DispatchView {
            limit: self.config.concurrency as nat,
            in_flight: self.in_flight as nat,
            queue: self.queue@,
            next: self.next as nat,
            phase: self.phase,
            poll_secs: self.config.poll_interval_secs,
            backoff_secs: self.config.backoff_secs,
        }
    }
}

impl Dispatcher {
    /// The worker's settings.
    pub closed spec fn config_spec(&self) -> (u64, u64) {
        (self.config.worker_id, self.config.total)
    }

    #[verifier::type_invariant]
    spec fn inv(&self) -> bool {
        &&& self.config.valid()
        &&& view_wf(self@)
    }

    /// A dispatcher that has launched nothing and polls first.
    pub fn new(config: ShardConfig) -> (r: Dispatcher)
        requires
            config.valid(),
        ensures
            view_wf(r@),
            r.config_spec() == (config.worker_id, config.total),
            r@.limit == config.concurrency,
            r@.in_flight == 0,
            r@.queue.len() == 0,
            r@.next == 0,
            r@.phase == Phase::Polling,
            r@.poll_secs == config.poll_interval_secs,
            r@.backoff_secs == config.backoff_secs,
    {
        Dispatcher { config, in_flight: 0, queue: Vec::new(), next: 0, phase: Phase::Polling }
    }

    /// The number of units launched and not yet reported complete.
    pub fn in_flight(&self) -> (r: usize)
        ensures
            r == self@.in_flight,
    {
        self.in_flight
    }

    /// Where the cycle stands.
    pub fn phase(&self) -> (r: Phase)
        ensures
            r == self@.phase,
    {
        self.phase
    }

    /// The next command, and the state it leaves behind.
    pub fn next_command(&mut self) -> (r: Command)
        ensures
            view_wf(final(self)@),
            final(self).config_spec() == old(self).config_spec(),
            (final(self)@, r) == next_spec(old(self)@),
    {
        proof {
            use_type_invariant(&*self);
        }
        match self.phase {
            Phase::Polling => Command::Poll,
            Phase::Backoff => {
                self.phase = Phase::Polling;
                Command::Sleep(self.config.backoff_secs)
            },
            Phase::Dispatching => {
                if self.next < self.queue.len() {
                    if self.in_flight < self.config.concurrency {
                        let pos: usize = self.queue[self.next];
                        self.in_flight = self.in_flight + 1;
                        self.next = self.next + 1;
                        Command::Launch(pos)
                    } else {
                        Command::AwaitCompletion
                    }
                } else {
                    self.next = 0;
                    self.queue = Vec::new();
                    self.phase = Phase::Polling;
                    Command::Sleep(self.config.poll_interval_secs)
                }
            },
        }
    }

    /// Reports a successful poll whose messages have the identifiers `uids`:
    /// the positions that this worker owns, in order, become the queue to
    /// launch. The others are left alone for their owners.
    pub fn fetched(&mut self, uids: &Vec<String>)
        ensures
            view_wf(final(self)@),
            final(self).config_spec() == old(self).config_spec(),
            final(self)@ == fetched_spec(
                old(self)@,
                owned_positions_spec(
                    uids@.map_values(|s: String| s@),
                    old(self).config_spec().1,
                    old(self).config_spec().0,
                ),
            ),
    {
        proof {
            use_type_invariant(&*self);
        }
        if self.phase == Phase::Polling {
            let owned = owned_positions(uids, self.config.total, self.config.worker_id);
            self.phase = Phase::Dispatching;
            self.queue = owned;
        }
    }

    /// Reports that the poll failed (the mailbox could not be reached or
    /// answered with an error): the next command waits out the backoff.
    pub fn fetch_failed(&mut self)
        ensures
            view_wf(final(self)@),
            final(self).config_spec() == old(self).config_spec(),
            final(self)@ == failed_spec(old(self)@),
    {
        proof {
            use_type_invariant(&*self);
        }
        if self.phase == Phase::Polling {
            self.phase = Phase::Backoff;
        }
    }

    /// Reports that a running unit completed with `outcome`; its permit
    /// returns to the pool.
    pub fn unit_finished(&mut self, outcome: UnitOutcome)
        requires
            old(self)@.in_flight > 0,
        ensures
            view_wf(final(self)@),
            final(self).config_spec() == old(self).config_spec(),
            final(self)@ == finish_spec(old(self)@, outcome),
    {
        proof {
            use_type_invariant(&*self);
        }
        self.in_flight = self.in_flight - 1;
    }
}

/// No step of the cycle lets more units run than there are permits: from a
/// well-formed state, issuing a command, reporting a poll, a failed poll or a
/// completed unit leads to a well-formed state, and a launch is issued only
/// while a permit is free.
pub proof fn permits_never_exceeded(v: DispatchView, owned: Seq<usize>, outcome: UnitOutcome)
    requires
        view_wf(v),
    ensures
        view_wf(next_spec(v).0),
        next_spec(v).1 is Launch ==> v.in_flight < v.limit,
        next_spec(v).0.in_flight <= v.limit,
        view_wf(fetched_spec(v, owned)),
        view_wf(failed_spec(v)),
        v.in_flight > 0 ==> view_wf(finish_spec(v, outcome)),
{
}

/// The failure of one unit affects no other message: completing with a
/// failed classification leaves the same state as completing with a
/// delivered notification, and the messages still waiting to be launched,
/// with their order, are untouched.
pub proof fn failure_is_isolated(v: DispatchView)
    requires
        view_wf(v),
        v.in_flight > 0,
    ensures
        finish_spec(v, UnitOutcome::ClassifyFailed) == finish_spec(v, UnitOutcome::Notified),
        finish_spec(v, UnitOutcome::ClassifyFailed) == finish_spec(v, UnitOutcome::NotifyFailed),
        finish_spec(v, UnitOutcome::ClassifyFailed).queue == v.queue,
        finish_spec(v, UnitOutcome::ClassifyFailed).next == v.next,
        finish_spec(v, UnitOutcome::ClassifyFailed).phase == v.phase,
{
}

/// A failed poll never ends the cycle: the next command sleeps for the
/// configured backoff, and the one after that polls again.
pub proof fn failed_poll_is_retried(v: DispatchView)
    requires
        view_wf(v),
        v.phase == Phase::Polling,
    ensures
        next_spec(failed_spec(v)).1 == Command::Sleep(v.backoff_secs),
        next_spec(next_spec(failed_spec(v)).0).1 == Command::Poll,
        next_spec(failed_spec(v)).0.in_flight == v.in_flight,
{
}

} // verus!
