//! The three time windows of a swap, all measured from its creation.

use vstd::prelude::*;

verus! {

/// A point in ledger time, in nanoseconds.
pub type Timestamp = u64;

/// Nanoseconds in one second: periods are given in seconds, time in
/// nanoseconds.
pub const NANOS_PER_SECOND: u64 = 1_000_000_000;

/// When an escrow was created, and how long after that each operation opens
/// or closes. The three periods are independent: no order among them is
/// asked for.
#[derive(Clone, Copy, Debug, PartialEq, Eq, Structural)]
pub struct Timelocks {
    /// Creation time.
    pub deployed_at: Timestamp,
    /// Seconds after creation during which withdrawal is open.
    pub withdrawal_period: u64,
    /// Seconds after creation from which cancellation is open.
    pub cancellation_period: u64,
    /// Seconds after creation from which rescue is open.
    pub rescue_delay: u64,
}

impl Timelocks {
    /// The last instant at which withdrawal is open.
    pub open spec fn withdrawal_deadline(self) -> int {
        self.deployed_at + self.withdrawal_period * NANOS_PER_SECOND
    }

    /// The first instant at which cancellation is open.
    pub open spec fn cancellation_start(self) -> int {
        self.deployed_at + self.cancellation_period * NANOS_PER_SECOND
    }

    /// The first instant at which rescue is open.
    pub open spec fn rescue_start(self) -> int {
        self.deployed_at + self.rescue_delay * NANOS_PER_SECOND
    }

    /// Withdrawal is open up to and including its deadline.
    pub open spec fn withdrawal_open(self, now: Timestamp) -> bool {
        now <= self.withdrawal_deadline()
    }

    /// Cancellation is open from its start on.
    pub open spec fn cancellation_open(self, now: Timestamp) -> bool {
        now >= self.cancellation_start()
    }

    /// Rescue is open from its start on.
    pub open spec fn rescue_open(self, now: Timestamp) -> bool {
        now >= self.rescue_start()
    }

    /// The windows follow one another: withdrawal closes before cancellation
    /// opens, and cancellation opens before rescue does. Nothing asks this of
    /// a swap; whoever sets one up can ask it.
    pub open spec fn ordered(self) -> bool {
        self.withdrawal_period < self.cancellation_period && self.cancellation_period
            < self.rescue_delay
    }

    /// Time locks of an escrow created at `deployed_at`.
    pub fn new(
        deployed_at: Timestamp,
        withdrawal_period: u64,
        cancellation_period: u64,
        rescue_delay: u64,
    ) -> (timelocks: Self)
        ensures
            timelocks == (Timelocks {
                deployed_at,
                withdrawal_period,
                cancellation_period,
                rescue_delay,
            }),
    {
        Timelocks { deployed_at, withdrawal_period, cancellation_period, rescue_delay }
    }

    /// Whether withdrawal is open at `now`.
    pub fn can_withdraw(&self, now: Timestamp) -> (open: bool)
        ensures
            open == self.withdrawal_open(now),
    {
        now as u128 <= Self::instant_after(self.deployed_at, self.withdrawal_period)
    }

    /// Whether cancellation is open at `now`.
    pub fn can_cancel(&self, now: Timestamp) -> (open: bool)
        ensures
            open == self.cancellation_open(now),
    {
        now as u128 >= Self::instant_after(self.deployed_at, self.cancellation_period)
    }

    /// Whether rescue is open at `now`.
    pub fn can_rescue(&self, now: Timestamp) -> (open: bool)
        ensures
            open == self.rescue_open(now),
    {
        now as u128 >= Self::instant_after(self.deployed_at, self.rescue_delay)
    }

    /// Whether the windows follow one another.
    pub fn is_ordered(&self) -> (ordered: bool)
        ensures
            ordered == self.ordered(),
    {
        self.withdrawal_period < self.cancellation_period && self.cancellation_period
            < self.rescue_delay
    }

    /// The instant `seconds` after `start`, in a width that always holds it.
    fn instant_after(start: Timestamp, seconds: u64) -> (instant: u128)
        ensures
            instant == start + seconds * NANOS_PER_SECOND,
    {
        let offset: u128 = seconds as u128 * 1_000_000_000u128;
        start as u128 + offset
    }
}

/// Withdrawal is open at the moment of creation.
pub proof fn lemma_withdrawal_open_at_creation(timelocks: Timelocks)
    ensures
        timelocks.withdrawal_open(timelocks.deployed_at),
{
}

/// Once the withdrawal deadline has passed, withdrawal is closed, and as time
/// goes on it stays closed.
pub proof fn lemma_withdrawal_closes_for_good(
    timelocks: Timelocks,
    earlier: Timestamp,
    later: Timestamp,
)
    requires
        earlier <= later,
    ensures
        earlier > timelocks.withdrawal_deadline() ==> !timelocks.withdrawal_open(earlier),
        !timelocks.withdrawal_open(earlier) ==> !timelocks.withdrawal_open(later),
{
}

/// Cancellation is closed before its start, open from it on, and as time goes
/// on it stays open.
pub proof fn lemma_cancellation_opens_for_good(
    timelocks: Timelocks,
    earlier: Timestamp,
    later: Timestamp,
)
    requires
        earlier <= later,
    ensures
        earlier < timelocks.cancellation_start() ==> !timelocks.cancellation_open(earlier),
        earlier >= timelocks.cancellation_start() ==> timelocks.cancellation_open(earlier),
        timelocks.cancellation_open(earlier) ==> timelocks.cancellation_open(later),
{
}

/// Rescue is closed before its start, open from it on, and as time goes on it
/// stays open.
pub proof fn lemma_rescue_opens_for_good(timelocks: Timelocks, earlier: Timestamp, later: Timestamp)
    requires
        earlier <= later,
    ensures
        earlier < timelocks.rescue_start() ==> !timelocks.rescue_open(earlier),
        earlier >= timelocks.rescue_start() ==> timelocks.rescue_open(earlier),
        timelocks.rescue_open(earlier) ==> timelocks.rescue_open(later),
{
}

/// Where the windows follow one another, withdrawal and cancellation are
/// never open at the same time, and rescue is never open before cancellation.
pub proof fn lemma_ordered_windows_do_not_overlap(timelocks: Timelocks, now: Timestamp)
    requires
        timelocks.ordered(),
    ensures
        !(timelocks.withdrawal_open(now) && timelocks.cancellation_open(now)),
        timelocks.rescue_open(now) ==> timelocks.cancellation_open(now),
{
}

} // verus!
