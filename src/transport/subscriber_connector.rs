use vstd::prelude::*;

verus! {

/// Text reported when a finite retry budget is spent.
pub const MAX_RETRIES_MESSAGE: &'static str =
    "Maximum connection retries attempted. Auto-reconnect canceled.";

/// Outcome of a connection attempt.
#[derive(Copy, Clone, Debug, PartialEq, Eq, Hash, Structural)]
pub enum ConnectStatus {
    /// Connection succeeded.
    Success,
    /// Connection failed.
    Failed,
    /// Connection was canceled.
    Canceled,
}

/// Where the single reconnect task of a connector stands.
#[derive(Copy, Clone, Debug, PartialEq, Eq, Hash, Structural)]
pub enum ReconnectPhase {
    /// No reconnect task is running.
    Idle,
    /// The task waits out the backoff delay.
    Waiting,
    /// The task opens the connection.
    Connecting,
    /// The task runs the reconnect callback.
    Notifying,
}

/// What the runner of the reconnect task must do next.
#[derive(Copy, Clone, Debug, PartialEq, Eq, Hash, Structural)]
pub enum ReconnectStep {
    /// Nothing: the connector is canceled or the subscriber is disposing.
    Skip,
    /// A reconnect task is still running: join it, then ask again.
    JoinPrevious,
    /// The retry budget is spent: report `MAX_RETRIES_MESSAGE` and stop retrying.
    GiveUp,
    /// Sleep this many milliseconds, then call `wait_elapsed`.
    Wait(u64),
    /// Open the connection, then call `connect_finished`.
    Connect,
    /// Run the reconnect callback, then call `callback_finished`.
    NotifyReconnected,
    /// The task is over, with this outcome.
    Done(ConnectStatus),
}

/// `2^n`.
pub open spec fn two_pow(n: nat) -> int
    decreases n,
{
    if n == 0 {
        1
    } else {
        2 * two_pow((n - 1) as nat)
    }
}

/// Backoff delay in milliseconds before connection attempt `attempt`: none for the
/// first attempt (0); otherwise `interval * 2^min(attempt - 1, 12)`, capped at
/// `max_interval` and never below 0.
pub open spec fn backoff_delay(attempt: int, interval: int, max_interval: int) -> int {
    if attempt <= 0 {
        0
    } else {
        let exponent = if attempt - 1 < 12 {
            attempt - 1
        } else {
            12
        };
        let raw = interval * two_pow(exponent as nat);
        let capped = if raw < max_interval {
            raw
        } else {
            max_interval
        };
        if capped < 0 {
            0
        } else {
            capped
        }
    }
}

/// Reestablishes, or automatically keeps reestablishing, a subscriber's connection to a
/// publisher with exponential backoff, at most one reconnect task at a time.
#[derive(Clone, Debug)]
pub struct SubscriberConnector {
    /// DNS name or IP of the publisher.
    pub hostname: String,
    /// TCP port of the publisher.
    pub port: u16,
    /// Maximum number of connection retries; -1 retries without end.
    pub max_retries: i32,
    /// Base retry interval in milliseconds; retries back off exponentially from it.
    pub retry_interval: i32,
    /// Maximum retry interval in milliseconds.
    pub max_retry_interval: i32,
    /// Whether lost connections are reattempted automatically.
    pub auto_reconnect: bool,
    /// Number of connection attempts that failed since the last reset.
    pub connect_attempt: i32,
    /// Whether the last connection attempt was refused.
    pub connection_refused: bool,
    /// Whether the connector was canceled.
    pub cancel: bool,
    /// Where the reconnect task stands.
    pub phase: ReconnectPhase,
}

impl SubscriberConnector {
    /// Number of connection attempts that failed since the last reset.
    pub open spec fn attempts(&self) -> i32 {
        self.connect_attempt
    }

    /// Whether the last connection attempt was refused.
    pub open spec fn refused(&self) -> bool {
        self.connection_refused
    }

    /// Whether the connector was canceled.
    pub open spec fn canceled(&self) -> bool {
        self.cancel
    }

    /// Where the reconnect task stands.
    pub open spec fn reconnect_phase(&self) -> ReconnectPhase {
        self.phase
    }

    /// The backoff delay before the next attempt.
    pub open spec fn next_delay(&self) -> int {
        backoff_delay(self.attempts() as int, self.retry_interval as int, self.max_retry_interval as int)
    }

    /// Whether a finite retry budget is spent.
    pub open spec fn retries_spent(&self) -> bool {
        self.max_retries != -1 && self.attempts() >= self.max_retries
    }

    /// The connector with the given reconnect phase and all else unchanged.
    pub open spec fn with_phase(&self, phase: ReconnectPhase) -> SubscriberConnector {
        SubscriberConnector { phase, ..*self }
    }

    /// The connector and step that a request to start an automatic reconnect gives.
    pub open spec fn begin_step(&self, disposing: bool) -> (SubscriberConnector, ReconnectStep) {
        if self.canceled() || disposing {
            (*self, ReconnectStep::Skip)
        } else if self.reconnect_phase() != ReconnectPhase::Idle {
            (*self, ReconnectStep::JoinPrevious)
        } else if self.retries_spent() {
            (*self, ReconnectStep::GiveUp)
        } else {
            (self.with_phase(ReconnectPhase::Waiting), ReconnectStep::Wait(self.next_delay() as u64))
        }
    }

    /// Creates a connector for `localhost:6162` that retries without end, from 1 s up
    /// to 60 s.
    pub fn new() -> (r: Self)
        ensures
            r.hostname@ == "localhost"@,
            r.port == 6162,
            r.max_retries == -1,
            r.retry_interval == 1000,
            r.max_retry_interval == 60000,
            r.auto_reconnect,
            r.attempts() == 0,
            !r.refused(),
            !r.canceled(),
            r.reconnect_phase() == ReconnectPhase::Idle,
    {
        SubscriberConnector {
            hostname: String::from_str("localhost"),
            port: 6162,
            max_retries: -1,
            retry_interval: 1000,
            max_retry_interval: 60000,
            auto_reconnect: true,
            connect_attempt: 0,
            connection_refused: false,
            cancel: false,
            phase: ReconnectPhase::Idle,
        }
    }

    /// Number of connection attempts that failed since the last reset.
    pub fn connect_attempt(&self) -> (r: i32)
        ensures
            r == self.attempts(),
    {
        self.connect_attempt
    }

    /// Whether the connector was canceled.
    pub fn is_canceled(&self) -> (r: bool)
        ensures
            r == self.canceled(),
    {
        self.cancel
    }

    /// Where the reconnect task stands.
    pub fn phase(&self) -> (r: ReconnectPhase)
        ensures
            r == self.reconnect_phase(),
    {
        self.phase
    }

    /// Backoff delay, in milliseconds, before the next connection attempt.
    pub fn retry_delay(&self) -> (r: u64)
        ensures
            r == self.next_delay(),
    {
        let attempt = self.connect_attempt;
        if attempt <= 0 {
            return 0;
        }
        let exponent: u32 = if attempt - 1 < 12 { (attempt - 1) as u32 } else { 12 };
        let mut factor: i64 = 1;
        let mut k: u32 = 0;
        assert(two_pow(12) == 4096) by {
            reveal_with_fuel(two_pow, 13);
        }
        while k < exponent
            invariant
                two_pow(12) == 4096,
                k <= exponent <= 12,
                factor == two_pow(k as nat),
                factor <= 4096,
            decreases exponent - k,
        {
            proof {
                lemma_two_pow_monotone(k as nat + 1, 12);
            }
            factor = factor * 2;
            k = k + 1;
        }
        proof {
            lemma_two_pow_monotone(exponent as nat, 12);
        }
        assert(-0x8000_0000 * 4096 <= self.retry_interval as int * factor <= 0x7FFF_FFFF * 4096)
            by (nonlinear_arith)
            requires
                1 <= factor <= 4096,
                -0x8000_0000 <= self.retry_interval <= 0x7FFF_FFFF,
        ;
        let raw: i64 = (self.retry_interval as i64) * factor;
        let max = self.max_retry_interval as i64;
        let capped = if raw < max { raw } else { max };
        if capped < 0 {
            0
        } else {
            capped as u64
        }
    }

    /// Zeroes the attempt counter and the connection-refused flag; a connection the user
    /// asks for starts its backoff from zero.
    pub fn reset_connection(&mut self)
        ensures
            *final(self) == (SubscriberConnector {
                connect_attempt: 0,
                connection_refused: false,
                ..*old(self)
            }),
            final(self).attempts() == 0,
            !final(self).refused(),
    {
        self.connect_attempt = 0;
        self.connection_refused = false;
    }

    /// Records whether the last connection attempt was refused.
    pub fn set_connection_refused(&mut self, refused: bool)
        ensures
            *final(self) == (SubscriberConnector { connection_refused: refused, ..*old(self) }),
            final(self).refused() == refused,
    {
        self.connection_refused = refused;
    }

    /// Cancels the connector: a waiting or coming step of the reconnect task ends the
    /// task as `Canceled`, and no new task starts.
    pub fn cancel(&mut self)
        ensures
            *final(self) == (SubscriberConnector { cancel: true, ..*old(self) }),
            final(self).canceled(),
    {
        self.cancel = true;
    }

    /// Shuts the connector down for good; the same as `cancel`.
    pub fn dispose(&mut self)
        ensures
            *final(self) == (SubscriberConnector { cancel: true, ..*old(self) }),
            final(self).canceled(),
    {
        self.cancel();
    }

    /// Asks to start an automatic reconnect. Nothing happens if the connector is
    /// canceled or the subscriber is disposing. While a reconnect task runs, the caller
    /// is told to join it first, and nothing changes. With a finite retry budget spent,
    /// the caller is told to give up. Otherwise a task starts by waiting out the backoff
    /// delay.
    pub fn begin_auto_reconnect(&mut self, disposing: bool) -> (r: ReconnectStep)
        ensures
            (*final(self), r) == old(self).begin_step(disposing),
    {
        if self.cancel || disposing {
            return ReconnectStep::Skip;
        }
        if self.phase != ReconnectPhase::Idle {
            return ReconnectStep::JoinPrevious;
        }
        if self.max_retries != -1 && self.connect_attempt >= self.max_retries {
            return ReconnectStep::GiveUp;
        }
        let delay = self.retry_delay();
        self.phase = ReconnectPhase::Waiting;
        ReconnectStep::Wait(delay)
    }

    /// The backoff wait is over: connect, unless canceled or disposing meanwhile.
    pub fn wait_elapsed(&mut self, disposing: bool) -> (r: ReconnectStep)
        requires
            old(self).reconnect_phase() == ReconnectPhase::Waiting,
        ensures
            old(self).canceled() || disposing ==> r == ReconnectStep::Done(ConnectStatus::Canceled)
                && *final(self) == old(self).with_phase(ReconnectPhase::Idle),
            !(old(self).canceled() || disposing) ==> r == ReconnectStep::Connect && *final(self)
                == old(self).with_phase(ReconnectPhase::Connecting),
    {
        if self.cancel || disposing {
            self.phase = ReconnectPhase::Idle;
            return ReconnectStep::Done(ConnectStatus::Canceled);
        }
        self.phase = ReconnectPhase::Connecting;
        ReconnectStep::Connect
    }

    /// The connection attempt is over. A canceled connector ends the task as
    /// `Canceled`; a failed attempt counts toward the backoff and ends the task as
    /// `Failed`; a successful one leads to the reconnect callback.
    pub fn connect_finished(&mut self, succeeded: bool, disposing: bool) -> (r: ReconnectStep)
        requires
            old(self).reconnect_phase() == ReconnectPhase::Connecting,
        ensures
            old(self).canceled() || disposing ==> r == ReconnectStep::Done(ConnectStatus::Canceled)
                && *final(self) == old(self).with_phase(ReconnectPhase::Idle),
            !(old(self).canceled() || disposing) && !succeeded ==> r == ReconnectStep::Done(
                ConnectStatus::Failed,
            ) && *final(self) == (SubscriberConnector {
                connect_attempt: if old(self).attempts() < i32::MAX {
                    (old(self).attempts() + 1) as i32
                } else {
                    i32::MAX
                },
                phase: ReconnectPhase::Idle,
                ..*old(self)
            }),
            !(old(self).canceled() || disposing) && succeeded ==> r == ReconnectStep::NotifyReconnected
                && *final(self) == old(self).with_phase(ReconnectPhase::Notifying),
    {
        if self.cancel || disposing {
            self.phase = ReconnectPhase::Idle;
            return ReconnectStep::Done(ConnectStatus::Canceled);
        }
        if !succeeded {
            if self.connect_attempt < i32::MAX {
                self.connect_attempt = self.connect_attempt + 1;
            }
            self.phase = ReconnectPhase::Idle;
            return ReconnectStep::Done(ConnectStatus::Failed);
        }
        self.phase = ReconnectPhase::Notifying;
        ReconnectStep::NotifyReconnected
    }

    /// The reconnect callback has run: the task ends as `Success`.
    pub fn callback_finished(&mut self) -> (r: ReconnectStep)
        requires
            old(self).reconnect_phase() == ReconnectPhase::Notifying,
        ensures
            r == ReconnectStep::Done(ConnectStatus::Success),
            *final(self) == old(self).with_phase(ReconnectPhase::Idle),
    {
        self.phase = ReconnectPhase::Idle;
        ReconnectStep::Done(ConnectStatus::Success)
    }
}

proof fn lemma_two_pow_monotone(a: nat, b: nat)
    requires
        a <= b,
    ensures
        1 <= two_pow(a) <= two_pow(b),
    decreases b,
{
    if a < b {
        lemma_two_pow_monotone(a, (b - 1) as nat);
    } else if a > 0 {
        lemma_two_pow_monotone((a - 1) as nat, (a - 1) as nat);
    }
}

/// For a fixed retry interval and maximum interval, the backoff delays of attempts
/// 1, 2, ... never decrease, and none exceeds the maximum interval (or 0, where the
/// maximum is negative).
pub proof fn lemma_backoff_monotone(interval: i32, max_interval: i32, a: int, b: int)
    requires
        1 <= a <= b,
    ensures
        0 <= backoff_delay(a, interval as int, max_interval as int) <= backoff_delay(
            b,
            interval as int,
            max_interval as int,
        ),
        backoff_delay(b, interval as int, max_interval as int) <= (if max_interval >= 0 {
            max_interval as int
        } else {
            0
        }),
{
    let ea: nat = (if a - 1 < 12 { a - 1 } else { 12 }) as nat;
    let eb: nat = (if b - 1 < 12 { b - 1 } else { 12 }) as nat;
    lemma_two_pow_monotone(ea, eb);
    let pa = two_pow(ea);
    let pb = two_pow(eb);
    if interval >= 0 {
        assert(interval as int * pa <= interval as int * pb) by (nonlinear_arith)
            requires
                interval >= 0,
                pa <= pb,
        ;
    } else {
        assert(interval as int * pa < 0 && interval as int * pb < 0) by (nonlinear_arith)
            requires
                interval < 0,
                1 <= pa,
                1 <= pb,
        ;
    }
}

/// At most one reconnect task runs at a time: while one is under way, a further
/// request to reconnect leaves the connector as it is and either tells the caller to
/// wait for the running task to finish or (canceled, disposing) to do nothing; and a
/// request starts a task only from the idle phase.
pub proof fn lemma_single_flight(c: SubscriberConnector, disposing: bool)
    ensures
        c.reconnect_phase() != ReconnectPhase::Idle ==> c.begin_step(disposing).0 == c && (
        c.begin_step(disposing).1 == ReconnectStep::JoinPrevious || c.begin_step(disposing).1
            == ReconnectStep::Skip),
        c.reconnect_phase() != ReconnectPhase::Idle && !c.canceled() && !disposing
            ==> c.begin_step(disposing).1 == ReconnectStep::JoinPrevious,
        c.begin_step(disposing).0.reconnect_phase() != ReconnectPhase::Idle ==> (
        c.reconnect_phase() == ReconnectPhase::Idle || c.begin_step(disposing).0 == c),
{
}

} // verus!
