//! The per-connection reader task, as a step function from what the socket
//! reported to what the task does next.
//!
//! A zero-length read is the peer's closure and ends the task at once.
use vstd::prelude::*;
use crate::gate::IoOutcome;

verus! {

/// Size of the receive buffer that a reader reuses on every read.
pub const RECV_BUFFER_LEN: usize = 1024;

/// The text that `String::from_utf8_lossy` makes of `b`.
pub uninterp spec fn lossy_utf8(b: Seq<u8>) -> Seq<char>;

/// Relies on std's `String::from_utf8_lossy`: it never fails, replaces each
/// invalid sequence, and its result depends on the bytes alone; no bytes
/// give no text.
#[verifier::external_body]
fn from_utf8_lossy(b: &[u8]) -> (r: String)
    ensures
        r@ == lossy_utf8(b@),
        b@.len() == 0 ==> r@.len() == 0,
{
    String::from_utf8_lossy(b).into_owned()
}

/// Decodes received bytes as text, substituting invalid sequences.
pub fn decode_lossy(b: &[u8]) -> (r: String)
    ensures
        r@ == lossy_utf8(b@),
{
    from_utf8_lossy(b)
}

/// A fresh receive buffer of `RECV_BUFFER_LEN` zero bytes.
pub fn recv_buffer() -> (r: Vec<u8>)
    ensures
        r@ == Seq::new(RECV_BUFFER_LEN as nat, |i: int| 0u8),
{
    let mut r: Vec<u8> = Vec::new();
    while r.len() < RECV_BUFFER_LEN
        invariant
            r.len() <= RECV_BUFFER_LEN,
            forall|i: int| 0 <= i < r.len() ==> r@[i] == 0u8,
        decreases RECV_BUFFER_LEN - r.len(),
    {
        r.push(0u8);
    }
    assert(r@ =~= Seq::new(RECV_BUFFER_LEN as nat, |i: int| 0u8));
    r
}

/// What a reader task learns in one iteration.
#[derive(Debug)]
pub enum ReaderEvent {
    /// Waiting for readability failed.
    WaitFailed(String),
    /// A read was attempted after the socket reported readability.
    Attempted(IoOutcome),
}

/// What a reader task does after one iteration.
#[derive(Debug)]
pub enum ReaderAction {
    /// Log the received text and keep reading.
    Received(String),
    /// The read would have blocked: wait for readability again at once.
    Retry,
    /// Log the error, if any, then the closure of `peer`; the task ends.
    Closed { peer: String, error: Option<String> },
}

/// Whether a running reader ends when handed `event`.
pub open spec fn ends_on(event: ReaderEvent) -> bool {
    match event {
        ReaderEvent::WaitFailed(_) => true,
        ReaderEvent::Attempted(IoOutcome::Done(n)) => n == 0,
        ReaderEvent::Attempted(IoOutcome::NotReady) => false,
        ReaderEvent::Attempted(IoOutcome::Fatal(_)) => true,
    }
}

/// Whether some event of `events` ends a reader.
pub open spec fn ends_somewhere(events: Seq<ReaderEvent>) -> bool {
    exists|i: int| 0 <= i < events.len() && ends_on(#[trigger] events[i])
}

/// The peers named by the closure lines that a reader for `peer` logs when
/// handed `events` in turn; it reads nothing after it has ended.
pub open spec fn closure_lines(peer: Seq<char>, events: Seq<ReaderEvent>) -> Seq<Seq<char>>
    decreases events.len(),
{
    if events.len() == 0 {
        Seq::empty()
    } else if ends_on(events[0]) {
        seq![peer]
    } else {
        closure_lines(peer, events.drop_first())
    }
}

/// A reader logs its closure exactly once, under its own peer, if some event
/// ends it, and never otherwise.
pub proof fn lemma_closure_logged_once(peer: Seq<char>, events: Seq<ReaderEvent>)
    ensures
        ends_somewhere(events) ==> closure_lines(peer, events) == seq![peer],
        !ends_somewhere(events) ==> closure_lines(peer, events) == Seq::<Seq<char>>::empty(),
    decreases events.len(),
{
    if events.len() > 0 {
        let rest = events.drop_first();
        lemma_closure_logged_once(peer, rest);
        if !ends_on(events[0]) {
            if ends_somewhere(rest) {
                let i = choose|i: int| 0 <= i < rest.len() && ends_on(#[trigger] rest[i]);
                assert(events[i + 1] == rest[i]);
            }
            if ends_somewhere(events) {
                let i = choose|i: int| 0 <= i < events.len() && ends_on(#[trigger] events[i]);
                assert(i > 0);
                assert(rest[i - 1] == events[i]);
            }
        }
    }
}

/// The state of one connection's reader task.
pub struct ConnectionReader {
    peer: String,
    ended: bool,
    received: Ghost<Seq<u8>>,
}

impl ConnectionReader {
    /// The address of the peer being read from, as logged.
    pub closed spec fn peer_view(&self) -> Seq<char> {
        self.peer@
    }

    /// Whether the task has ended.
    pub closed spec fn ended(&self) -> bool {
        self.ended
    }

    /// Every byte logged so far, in order of arrival.
    pub closed spec fn received(&self) -> Seq<u8> {
        self.received@
    }

    /// A task for a connection just accepted from `peer`.
    pub fn new(peer: String) -> (r: ConnectionReader)
        ensures
            r.peer_view() == peer@,
            !r.ended(),
            r.received() == Seq::<u8>::empty(),
    {
        ConnectionReader { peer, ended: false, received: Ghost(Seq::empty()) }
    }

    /// Whether the task has ended.
    pub fn is_ended(&self) -> (r: bool)
        ensures
            r == self.ended(),
    {
        self.ended
    }

    /// The address of the peer being read from.
    pub fn peer(&self) -> (r: String)
        ensures
            r@ == self.peer_view(),
    {
        self.peer.clone()
    }

    /// Handles one iteration; `buf` is the receive buffer the read went into.
    ///
    /// Bytes are decoded leniently and logged; a would-block signal retries
    /// without delay; a zero-length read, a failed wait or any other error
    /// ends the task, which names its own peer exactly once as it ends.
    pub fn step(&mut self, event: ReaderEvent, buf: &[u8]) -> (r: ReaderAction)
        requires
            !old(self).ended(),
            event matches ReaderEvent::Attempted(IoOutcome::Done(n)) ==> n <= buf@.len(),
        ensures
            final(self).peer_view() == old(self).peer_view(),
            final(self).ended() == (r is Closed),
            final(self).ended() == ends_on(event),
            r matches ReaderAction::Closed { peer, .. } ==> peer@ == old(self).peer_view(),
            match event {
                ReaderEvent::WaitFailed(m) => r matches ReaderAction::Closed { error, .. }
                    && error matches Some(e) && e@ == m@
                    && final(self).received() == old(self).received(),
                ReaderEvent::Attempted(IoOutcome::Done(n)) => if n == 0 {
                    r matches ReaderAction::Closed { error, .. } && error is None
                        && final(self).received() == old(self).received()
                } else {
                    r matches ReaderAction::Received(text)
                        && text@ == lossy_utf8(buf@.subrange(0, n as int))
                        && final(self).received() == old(self).received() + buf@.subrange(0, n as int)
                },
                ReaderEvent::Attempted(IoOutcome::NotReady) => r is Retry
                    && final(self).received() == old(self).received(),
                ReaderEvent::Attempted(IoOutcome::Fatal(m)) => r matches ReaderAction::Closed { error, .. }
                    && error matches Some(e) && e@ == m@
                    && final(self).received() == old(self).received(),
            },
    {
        match event {
            ReaderEvent::WaitFailed(m) => self.close(Some(m)),
            ReaderEvent::Attempted(IoOutcome::Done(n)) => {
                if n == 0 {
                    self.close(None)
                } else {
                    let chunk = &buf[0..n];
                    self.received = Ghost(self.received@ + chunk@);
                    ReaderAction::Received(decode_lossy(chunk))
                }
            },
            ReaderEvent::Attempted(IoOutcome::NotReady) => ReaderAction::Retry,
            ReaderEvent::Attempted(IoOutcome::Fatal(m)) => self.close(Some(m)),
        }
    }

    fn close(&mut self, error: Option<String>) -> (r: ReaderAction)
        ensures
            final(self).ended(),
            final(self).peer_view() == old(self).peer_view(),
            final(self).received() == old(self).received(),
            r matches ReaderAction::Closed { peer, error: e } && peer@ == old(self).peer_view()
                && e == error,
    {
        self.ended = true;
        ReaderAction::Closed { peer: self.peer.clone(), error }
    }
}

} // verus!
