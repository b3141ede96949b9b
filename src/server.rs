//! The server's accept loop: each accepted connection gets a reader task of
//! its own; an accept failure ends the server.
use vstd::prelude::*;
use crate::reader::{closure_lines, ends_somewhere, lemma_closure_logged_once, ConnectionReader, ReaderEvent};

verus! {

/// The closure lines that a server's readers log, reader by reader: the
/// connection accepted from `peers[i]` is handed `histories[i]`.
pub open spec fn server_closure_lines(
    peers: Seq<Seq<char>>,
    histories: Seq<Seq<ReaderEvent>>,
) -> Seq<Seq<char>>
    decreases peers.len(),
{
    if peers.len() == 0 || histories.len() == 0 {
        Seq::empty()
    } else {
        server_closure_lines(peers.drop_last(), histories.drop_last())
            + closure_lines(peers.last(), histories.last())
    }
}

/// Whichever order the connections end in, a server whose accepted
/// connections all end logs one closure line for each, naming that
/// connection's own peer and no other; with no connection, it logs none.
pub proof fn lemma_every_connection_closed_once(
    peers: Seq<Seq<char>>,
    histories: Seq<Seq<ReaderEvent>>,
)
    requires
        peers.len() == histories.len(),
        forall|k: int| 0 <= k < histories.len() ==> ends_somewhere(#[trigger] histories[k]),
    ensures
        server_closure_lines(peers, histories) == peers,
    decreases peers.len(),
{
    if peers.len() > 0 {
        let n = peers.len() - 1;
        let hs = histories.drop_last();
        assert forall|k: int| 0 <= k < hs.len() implies ends_somewhere(#[trigger] hs[k]) by {
            assert(hs[k] == histories[k]);
        }
        lemma_every_connection_closed_once(peers.drop_last(), hs);
        assert(ends_somewhere(histories[n]));
        lemma_closure_logged_once(peers.last(), histories.last());
        assert(peers.drop_last().push(peers.last()) =~= peers);
    }
}

/// What the accept loop does with the result of one accept.
pub enum AcceptAction {
    /// Log the new peer and run the given reader for it, independently.
    Spawn(ConnectionReader),
    /// Stop: the whole server fails with this error.
    Abort(String),
}

/// Decides on one accept: `Ok` holds the peer's address, `Err` the error.
pub fn on_accept(res: Result<String, String>) -> (r: AcceptAction)
    ensures
        match res {
            Ok(peer) => r matches AcceptAction::Spawn(task) && task.peer_view() == peer@
                && !task.ended() && task.received() == Seq::<u8>::empty(),
            Err(m) => r matches AcceptAction::Abort(e) && e@ == m@,
        },
{
    match res {
        Ok(peer) => AcceptAction::Spawn(ConnectionReader::new(peer)),
        Err(m) => AcceptAction::Abort(m),
    }
}

} // verus!
