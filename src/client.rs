//! The client sender loop's decisions: which socket options to apply once
//! connected, what each cycle sends, and what follows each write attempt.
use vstd::prelude::*;
use crate::gate::IoOutcome;
use crate::payload::{payload, payload_of};

verus! {

/// Socket options applied once, right after the connection is made.
#[derive(Debug, Clone, Copy, PartialEq, Eq, Structural)]
pub struct TuningPlan {
    /// TCP keepalive; always on.
    pub keepalive: bool,
    /// The idle-timeout to set, in seconds, if any.
    pub idle_timeout_secs: Option<u64>,
}

/// The options for a platform that does or does not support an
/// idle-timeout, given the configured one. Where the platform lacks it, a
/// configured value is ignored.
pub fn tuning_plan(supports_idle_timeout: bool, timeout_secs: Option<u64>) -> (r: TuningPlan)
    ensures
        r.keepalive,
        r.idle_timeout_secs == (if supports_idle_timeout { timeout_secs } else { None }),
{
    if supports_idle_timeout {
        TuningPlan { keepalive: true, idle_timeout_secs: timeout_secs }
    } else {
        TuningPlan { keepalive: true, idle_timeout_secs: None }
    }
}

/// What the client does after a write attempt, before sleeping for the
/// interval.
#[derive(Debug)]
pub enum SendAction {
    /// Log the payload as sent, then sleep.
    Sent,
    /// Log that the write would have blocked, then sleep all the same.
    WouldBlock,
    /// Stop: the whole client fails with this error.
    Abort(String),
}

/// The state of the client's send cycle.
pub struct Sender {
    count: u64,
    issued: Ghost<Seq<nat>>,
    sent: Ghost<Seq<u8>>,
}

impl Sender {
    /// The Send Counter: how many cycles have begun.
    pub closed spec fn count_view(&self) -> nat {
        self.count as nat
    }

    /// The counter values of all cycles so far, oldest first.
    pub closed spec fn issued(&self) -> Seq<nat> {
        self.issued@
    }

    /// Every byte that a write accepted so far, in order.
    pub closed spec fn sent(&self) -> Seq<u8> {
        self.sent@
    }

    /// The counter never skips and never resets: the cycles so far carried
    /// 1, 2, ..., count in that order.
    pub closed spec fn wf(&self) -> bool {
        &&& self.issued@.len() == self.count
        &&& forall|i: int| 0 <= i < self.issued@.len() ==> self.issued@[i] == i + 1
    }

    /// A sender before its first cycle.
    pub fn new() -> (r: Sender)
        ensures
            r.wf(),
            r.count_view() == 0,
            r.issued() == Seq::<nat>::empty(),
            r.sent() == Seq::<u8>::empty(),
    {
        Sender { count: 0, issued: Ghost(Seq::empty()), sent: Ghost(Seq::empty()) }
    }

    /// The Send Counter.
    pub fn count(&self) -> (r: u64)
        ensures
            r == self.count_view(),
    {
        self.count
    }

    /// Whether another cycle can begin: the 64-bit counter has room.
    pub fn can_begin(&self) -> (r: bool)
        ensures
            r == (self.count_view() < u64::MAX),
    {
        self.count < u64::MAX
    }

    /// Begins a cycle: increments the counter and returns the payload that
    /// carries its new value.
    pub fn begin_cycle(&mut self) -> (r: Vec<u8>)
        requires
            old(self).wf(),
            old(self).count_view() < u64::MAX,
        ensures
            final(self).wf(),
            final(self).count_view() == old(self).count_view() + 1,
            final(self).issued() == old(self).issued().push(final(self).count_view()),
            final(self).sent() == old(self).sent(),
            r@ == payload_of(final(self).count_view()),
    {
        self.count = self.count + 1;
        self.issued = Ghost(self.issued@.push(self.count as nat));
        payload(self.count)
    }

    /// Decides what follows the write attempt of `data`. A would-block
    /// signal is logged and the cycle goes on to its sleep; it is not
    /// retried at once.
    pub fn after_attempt(&mut self, data: &[u8], outcome: IoOutcome) -> (r: SendAction)
        requires
            outcome matches IoOutcome::Done(n) ==> n <= data@.len(),
        ensures
            final(self).count_view() == old(self).count_view(),
            final(self).issued() == old(self).issued(),
            old(self).wf() ==> final(self).wf(),
            match outcome {
                IoOutcome::Done(n) => r is Sent
                    && final(self).sent() == old(self).sent() + data@.subrange(0, n as int),
                IoOutcome::NotReady => r is WouldBlock && final(self).sent() == old(self).sent(),
                IoOutcome::Fatal(m) => r matches SendAction::Abort(e) && e@ == m@
                    && final(self).sent() == old(self).sent(),
            },
    {
        match outcome {
            IoOutcome::Done(n) => {
                let written = &data[0..n];
                self.sent = Ghost(self.sent@ + written@);
                SendAction::Sent
            },
            IoOutcome::NotReady => SendAction::WouldBlock,
            IoOutcome::Fatal(m) => SendAction::Abort(m),
        }
    }
}

} // verus!
