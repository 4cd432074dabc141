use vstd::prelude::*;

use crate::clock::LocalTime;

verus! {

/// `std::time::Instant`, carried through unchanged: a moment read by the runner.
#[verifier::external_type_specification]
#[verifier::external_body]
pub struct ExInstant(std::time::Instant);

/// Consecutive failures after which reconnecting slows down.
pub const FAILURE_THRESHOLD: usize = 20;

/// A session with no ping for this long is closed.
pub const IDLE_TIMEOUT_MS: u64 = 40_000;

/// First hour of the day at which the connection effect may run.
pub const EFFECT_FIRST_HOUR: u8 = 7;

/// Last hour of the day at which the connection effect may run.
pub const EFFECT_LAST_HOUR: u8 = 22;

/// Notifications carried by the internal event bus.
#[derive(Clone, Copy, Debug, PartialEq, Eq, Structural)]
pub enum InternalMessage {
    /// The light's on/off state changed.
    Light,
}

/// The reconnect delay tier.
#[derive(Clone, Copy, Debug, PartialEq, Eq, Structural)]
pub enum Wait {
    Short,
    Long,
}

/// The delay of a tier in milliseconds.
pub open spec fn wait_ms(w: Wait) -> u64 {
    match w {
        Wait::Short => 5_000,
        Wait::Long => 60_000,
    }
}

impl Wait {
    /// The delay in milliseconds.
    pub fn as_ms(&self) -> (r: u64)
        ensures
            r == wait_ms(*self),
    {
        match self {
            Wait::Short => 5_000,
            Wait::Long => 60_000,
        }
    }
}

/// The tier that belongs to a failure count.
pub open spec fn tier_for(count: int) -> Wait {
    if count >= FAILURE_THRESHOLD {
        Wait::Long
    } else {
        Wait::Short
    }
}

/// The failure count after one more failure; it stops at the largest `usize`.
pub open spec fn count_after_failure(count: int) -> int {
    if count >= usize::MAX {
        usize::MAX as int
    } else {
        count + 1
    }
}

/// The failure count after `n` consecutive failures.
pub open spec fn count_after_failures(count: int, n: nat) -> int
    decreases n,
{
    if n == 0 {
        count
    } else {
        count_after_failure(count_after_failures(count, (n - 1) as nat))
    }
}

/// Counters of the reconnect loop.
#[derive(Debug)]
pub struct ConnectionDetails {
    count: usize,
    wait: Wait,
    connection_instant: Option<std::time::Instant>,
}

impl ConnectionDetails {
    /// The tier is the one the failure count calls for.
    pub open spec fn wf(&self) -> bool {
        self.wait_spec() == tier_for(self.count_spec())
    }

    /// Consecutive failed attempts.
    pub closed spec fn count_spec(&self) -> int {
        self.count as int
    }

    /// The current delay tier.
    pub closed spec fn wait_spec(&self) -> Wait {
        self.wait
    }

    /// When the last successful connect happened, if any did.
    pub closed spec fn instant_spec(&self) -> Option<std::time::Instant> {
        self.connection_instant
    }

    /// No failures yet, the short tier, never connected.
    pub fn new() -> (r: Self)
        ensures
            r.wf(),
            r.count_spec() == 0,
            r.wait_spec() == Wait::Short,
            r.instant_spec() is None,
    {
        ConnectionDetails { count: 0, wait: Wait::Short, connection_instant: None }
    }

    /// Count a failed attempt; from the threshold on, the long tier applies.
    pub fn fail_connect(&mut self)
        requires
            old(self).wf(),
        ensures
            final(self).wf(),
            final(self).count_spec() == count_after_failure(old(self).count_spec()),
            final(self).wait_spec() == tier_for(final(self).count_spec()),
            final(self).instant_spec() == old(self).instant_spec(),
    {
        self.count = self.count.saturating_add(1);
        if self.count >= FAILURE_THRESHOLD {
            self.wait = Wait::Long;
        }
    }

    /// Milliseconds to wait before the next attempt: none before the first
    /// attempt and after a success, else the current tier's delay.
    pub fn reconnect_delay(&self) -> (r: u64)
        ensures
            r == if self.count_spec() > 0 {
                wait_ms(self.wait_spec())
            } else {
                0
            },
    {
        if self.count > 0 {
            self.wait.as_ms()
        } else {
            0
        }
    }

    /// A successful connect at `now`: the count and tier start over.
    pub fn valid_connect(&mut self, now: std::time::Instant)
        ensures
            final(self).wf(),
            final(self).count_spec() == 0,
            final(self).wait_spec() == Wait::Short,
            final(self).instant_spec() == Some(now),
    {
        self.wait = Wait::Short;
        self.count = 0;
        self.connection_instant = Some(now);
    }

    /// The moment of the last successful connect, or `now` if none happened.
    pub fn get_connect_instant(&self, now: std::time::Instant) -> (r: std::time::Instant)
        ensures
            r == match self.instant_spec() {
                Some(i) => i,
                None => now,
            },
    {
        match self.connection_instant {
            Some(i) => i,
            None => now,
        }
    }
}

/// Where the reconnect loop stands.
#[derive(Clone, Copy, Debug, PartialEq, Eq, Structural)]
pub enum Phase {
    Disconnected,
    Connecting,
    Connected,
}

/// The connection supervisor: its phase and its reconnect counters.
#[derive(Debug)]
pub struct Supervisor {
    details: ConnectionDetails,
    phase: Phase,
}

impl Supervisor {
    /// The counters are well formed.
    pub open spec fn wf(&self) -> bool {
        self.details_spec().wf()
    }

    /// The current phase.
    pub closed spec fn phase_spec(&self) -> Phase {
        self.phase
    }

    /// The reconnect counters.
    pub closed spec fn details_spec(&self) -> ConnectionDetails {
        self.details
    }

    /// Disconnected, with no failures yet.
    pub fn new() -> (r: Self)
        ensures
            r.wf(),
            r.phase_spec() == Phase::Disconnected,
            r.details_spec().count_spec() == 0,
            r.details_spec().wait_spec() == Wait::Short,
            r.details_spec().instant_spec() is None,
    {
        Supervisor { details: ConnectionDetails::new(), phase: Phase::Disconnected }
    }

    /// The current phase.
    pub fn phase(&self) -> (r: Phase)
        ensures
            r == self.phase_spec(),
    {
        self.phase
    }

    /// The reconnect counters.
    pub fn details(&self) -> (r: &ConnectionDetails)
        ensures
            *r == self.details_spec(),
    {
        &self.details
    }

    /// Begin an attempt from the disconnected phase; returns the delay to
    /// wait before it. In any other phase nothing changes and `None` comes back.
    pub fn begin_attempt(&mut self) -> (r: Option<u64>)
        requires
            old(self).wf(),
        ensures
            final(self).wf(),
            final(self).details_spec() == old(self).details_spec(),
            old(self).phase_spec() == Phase::Disconnected ==> {
                &&& final(self).phase_spec() == Phase::Connecting
                &&& r == Some(
                    if old(self).details_spec().count_spec() > 0 {
                        wait_ms(old(self).details_spec().wait_spec())
                    } else {
                        0u64
                    },
                )
            },
            old(self).phase_spec() != Phase::Disconnected ==> final(self).phase_spec() == old(
                self,
            ).phase_spec() && r is None,
    {
        match self.phase {
            Phase::Disconnected => {
                self.phase = Phase::Connecting;
                Some(self.details.reconnect_delay())
            },
            _ => None,
        }
    }

    /// The attempt succeeded at `now`: connected, counters reset.
    pub fn connected(&mut self, now: std::time::Instant) -> (r: bool)
        requires
            old(self).wf(),
        ensures
            final(self).wf(),
            r == (old(self).phase_spec() == Phase::Connecting),
            r ==> {
                &&& final(self).phase_spec() == Phase::Connected
                &&& final(self).details_spec().count_spec() == 0
                &&& final(self).details_spec().wait_spec() == Wait::Short
                &&& final(self).details_spec().instant_spec() == Some(now)
            },
            !r ==> final(self).phase_spec() == old(self).phase_spec() && final(self).details_spec()
                == old(self).details_spec(),
    {
        match self.phase {
            Phase::Connecting => {
                self.details.valid_connect(now);
                self.phase = Phase::Connected;
                true
            },
            _ => false,
        }
    }

    /// The attempt failed: disconnected, one more failure counted.
    pub fn attempt_failed(&mut self) -> (r: bool)
        requires
            old(self).wf(),
        ensures
            final(self).wf(),
            r == (old(self).phase_spec() == Phase::Connecting),
            r ==> {
                &&& final(self).phase_spec() == Phase::Disconnected
                &&& final(self).details_spec().count_spec() == count_after_failure(
                    old(self).details_spec().count_spec(),
                )
                &&& final(self).details_spec().wait_spec() == tier_for(
                    final(self).details_spec().count_spec(),
                )
            },
            !r ==> final(self).phase_spec() == old(self).phase_spec() && final(self).details_spec()
                == old(self).details_spec(),
    {
        match self.phase {
            Phase::Connecting => {
                self.details.fail_connect();
                self.phase = Phase::Disconnected;
                true
            },
            _ => false,
        }
    }

    /// The session closed or failed: disconnected, counters kept (they were
    /// reset when it connected).
    pub fn session_ended(&mut self) -> (r: bool)
        requires
            old(self).wf(),
        ensures
            final(self).wf(),
            final(self).details_spec() == old(self).details_spec(),
            r == (old(self).phase_spec() == Phase::Connected),
            r ==> final(self).phase_spec() == Phase::Disconnected,
            !r ==> final(self).phase_spec() == old(self).phase_spec(),
    {
        match self.phase {
            Phase::Connected => {
                self.phase = Phase::Disconnected;
                true
            },
            _ => false,
        }
    }
}

/// Starting from a reset count, `n` consecutive failures leave the count at
/// `n` and the short tier in place while `n` is below the threshold, and the
/// long tier from the threshold on: after 19 failures the delay is still
/// short, the 20th makes it long.
pub proof fn lemma_backoff_tiers(n: nat)
    requires
        n <= usize::MAX,
    ensures
        count_after_failures(0, n) == n,
        tier_for(count_after_failures(0, n)) == if n >= FAILURE_THRESHOLD {
            Wait::Long
        } else {
            Wait::Short
        },
        wait_ms(tier_for(count_after_failures(0, n))) == if n >= FAILURE_THRESHOLD {
            60_000u64
        } else {
            5_000u64
        },
    decreases n,
{
    if n > 0 {
        lemma_backoff_tiers((n - 1) as nat);
    }
}

/// A frame received from the remote peer.
#[derive(Clone, Debug)]
pub enum Frame {
    Text(String),
    Ping,
    Close,
    Other,
}

/// What the inbound task does with a frame.
#[derive(Clone, Debug)]
pub enum InboundAction {
    /// Hand the text to a handler of its own.
    Dispatch(String),
    /// The watchdog was rearmed.
    Rearmed,
    /// Close the session and stop reading.
    Close,
    /// Nothing to do.
    Ignore,
}

/// A watchdog armed at `armed_ms` has fired by `now_ms`.
pub open spec fn idle_expired(armed_ms: int, now_ms: int) -> bool {
    now_ms - armed_ms >= IDLE_TIMEOUT_MS
}

/// Closes a session that has received no ping for the idle timeout.
/// Times are milliseconds on the runner's monotonic clock.
#[derive(Clone, Copy, Debug)]
pub struct IdleWatchdog {
    armed_at_ms: u64,
}

impl IdleWatchdog {
    /// When the current window began.
    pub closed spec fn armed_spec(&self) -> int {
        self.armed_at_ms as int
    }

    /// A watchdog whose window begins at `now_ms`.
    pub fn new(now_ms: u64) -> (r: Self)
        ensures
            r.armed_spec() == now_ms,
    {
        IdleWatchdog { armed_at_ms: now_ms }
    }

    /// A ping at `now_ms` begins a fresh window.
    pub fn on_ping(&mut self, now_ms: u64)
        ensures
            final(self).armed_spec() == now_ms,
    {
        self.armed_at_ms = now_ms;
    }

    /// Whether the window has run out by `now_ms`.
    pub fn expired(&self, now_ms: u64) -> (r: bool)
        ensures
            r == idle_expired(self.armed_spec(), now_ms as int),
    {
        now_ms >= self.armed_at_ms && now_ms - self.armed_at_ms >= IDLE_TIMEOUT_MS
    }

    /// The inbound task's decision for a frame received at `now_ms`: text is
    /// dispatched, a ping rearms the watchdog, a close ends the session.
    pub fn on_frame(&mut self, frame: Frame, now_ms: u64) -> (r: InboundAction)
        ensures
            match frame {
                Frame::Text(t) => r == InboundAction::Dispatch(t) && final(self).armed_spec()
                    == old(self).armed_spec(),
                Frame::Ping => r == InboundAction::Rearmed && final(self).armed_spec() == now_ms,
                Frame::Close => r == InboundAction::Close && final(self).armed_spec()
                    == old(self).armed_spec(),
                Frame::Other => r == InboundAction::Ignore && final(self).armed_spec()
                    == old(self).armed_spec(),
            },
    {
        match frame {
            Frame::Text(t) => InboundAction::Dispatch(t),
            Frame::Ping => {
                self.on_ping(now_ms);
                InboundAction::Rearmed
            },
            Frame::Close => InboundAction::Close,
            Frame::Other => InboundAction::Ignore,
        }
    }
}

/// A session with no ping for the idle timeout is closed; a ping that comes
/// before the window runs out (at 39 s, say) keeps the session open and
/// begins a fresh window of the full timeout.
pub proof fn lemma_ping_renews_window(armed_ms: int, ping_ms: int, now_ms: int)
    requires
        armed_ms <= ping_ms < armed_ms + IDLE_TIMEOUT_MS,
        ping_ms <= now_ms,
    ensures
        !idle_expired(armed_ms, ping_ms),
        idle_expired(armed_ms, armed_ms + IDLE_TIMEOUT_MS),
        idle_expired(ping_ms, now_ms) <==> now_ms >= ping_ms + IDLE_TIMEOUT_MS,
        now_ms < ping_ms + IDLE_TIMEOUT_MS ==> !idle_expired(ping_ms, now_ms),
{
}

/// Whether the connection effect may run at local time `now` (07:00 to 22:59).
pub fn effect_allowed(now: LocalTime) -> (r: bool)
    ensures
        r == (EFFECT_FIRST_HOUR <= now.hour <= EFFECT_LAST_HOUR),
{
    EFFECT_FIRST_HOUR <= now.hour && now.hour <= EFFECT_LAST_HOUR
}

} // verus!
