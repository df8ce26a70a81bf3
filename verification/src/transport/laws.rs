//! What holds of exchanges and pipes over several steps.
use crate::error::{Error, ErrorCode};
use crate::transport::exchange::{
    ExchangeCtx, ExchangeId, ExchangeState, SessionId, MAX_EXCHANGES,
};
use crate::transport::network::Address;
use crate::transport::packet::Packet;
use crate::transport::pipe::{Chunk, PipeView};
use crate::transport::session::Session;
use crate::transport::shared::TransportView;
use vstd::prelude::*;

verus! {

/// Changing the state of exchanges does not change where an exchange is found.
proof fn lemma_find_by_id_only(before: Seq<ExchangeCtx>, after: Seq<ExchangeCtx>, id: ExchangeId)
    requires
        before.len() == after.len(),
        forall|i: int| 0 <= i < before.len() ==> (#[trigger] before[i]).id == after[i].id,
    ensures
        crate::transport::shared::find_exchange(before, id)
            == crate::transport::shared::find_exchange(after, id),
{
    if crate::transport::shared::find_exchange(before, id) is Some {
        let i = choose|i: int| crate::transport::shared::first_exchange(before, id, i);
        assert(crate::transport::shared::first_exchange(before, id, i));
        crate::transport::shared::first_exchange_is_found(before, id, i);
        assert forall|j: int| 0 <= j < i implies (#[trigger] after[j]).id != id by {
            assert(before[j].id != id);
        }
        assert(after[i].id == id);
        crate::transport::shared::first_exchange_is_found(after, id, i);
    }
    if crate::transport::shared::find_exchange(after, id) is Some {
        let i = choose|i: int| crate::transport::shared::first_exchange(after, id, i);
        assert(crate::transport::shared::first_exchange(after, id, i));
        assert forall|j: int| 0 <= j < i implies (#[trigger] before[j]).id != id by {
            assert(after[j].id != id);
        }
        assert(before[i].id == id);
        crate::transport::shared::first_exchange_is_found(before, id, i);
        crate::transport::shared::first_exchange_is_found(after, id, i);
    }
}

/// Where an exchange is found, its id stands.
proof fn lemma_found_has_id(exchanges: Seq<ExchangeCtx>, id: ExchangeId)
    ensures
        crate::transport::shared::find_exchange(exchanges, id) matches Some(i) ==> {
            &&& 0 <= i < exchanges.len()
            &&& exchanges[i].id == id
        },
{
    if crate::transport::shared::find_exchange(exchanges, id) is Some {
        let i = choose|i: int| crate::transport::shared::first_exchange(exchanges, id, i);
        assert(crate::transport::shared::first_exchange(exchanges, id, i));
    }
}

/// Among the places of an exchange there is a first one, and that one is found.
pub(crate) proof fn lemma_exchange_is_found(
    exchanges: Seq<ExchangeCtx>,
    id: ExchangeId,
    place: int,
)
    requires
        0 <= place < exchanges.len(),
        exchanges[place].id == id,
    ensures
        crate::transport::shared::find_exchange(exchanges, id) matches Some(i) && 0 <= i <= place
            && exchanges[i].id == id && forall|j: int|
            0 <= j < i ==> (#[trigger] exchanges[j]).id != id,
    decreases place,
{
    if forall|j: int| 0 <= j < place ==> (#[trigger] exchanges[j]).id != id {
        crate::transport::shared::first_exchange_is_found(exchanges, id, place);
    } else {
        let earlier = choose|j: int| 0 <= j < place && (#[trigger] exchanges[j]).id == id;
        lemma_exchange_is_found(exchanges, id, earlier);
    }
}

/// Among the places of the sessions that fit there is a first one, and that one is
/// found.
pub(crate) proof fn lemma_session_is_found(sessions: Seq<Session>, id: SessionId, place: int)
    requires
        0 <= place < sessions.len(),
        sessions[place].is_for(id.id, id.peer_addr, id.peer_nodeid, id.is_encrypted),
    ensures
        crate::transport::session::find_session(
            sessions,
            id.id,
            id.peer_addr,
            id.peer_nodeid,
            id.is_encrypted,
        ) matches Some(i) && 0 <= i <= place && crate::transport::session::first_session(
            sessions,
            id.id,
            id.peer_addr,
            id.peer_nodeid,
            id.is_encrypted,
            i,
        ),
    decreases place,
{
    if forall|j: int|
        0 <= j < place ==> !(#[trigger] sessions[j]).is_for(
            id.id,
            id.peer_addr,
            id.peer_nodeid,
            id.is_encrypted,
        ) {
        crate::transport::session::first_session_is_found(
            sessions,
            id.id,
            id.peer_addr,
            id.peer_nodeid,
            id.is_encrypted,
            place,
        );
    } else {
        let earlier = choose|j: int|
            0 <= j < place && (#[trigger] sessions[j]).is_for(
                id.id,
                id.peer_addr,
                id.peer_nodeid,
                id.is_encrypted,
            );
        lemma_session_is_found(sessions, id, earlier);
    }
}

/// The context of an exchange is the first one in the table that has its id. There is
/// one exactly if some entry of the table has that id.
pub proof fn context_is_the_first_with_the_id(transport: TransportView, id: ExchangeId, i: int)
    ensures
        transport.ctx(id) is Some <==> exists|j: int|
            0 <= j < transport.exchanges.len() && (#[trigger] transport.exchanges[j]).id == id,
        0 <= i < transport.exchanges.len() && transport.exchanges[i].id == id && (forall|j: int|
            0 <= j < i ==> (#[trigger] transport.exchanges[j]).id != id) ==> transport.ctx(id)
            == Some(transport.exchanges[i]),
        transport.ctx(id) matches Some(ctx) ==> ctx.id == id && transport.exchanges.contains(ctx),
{
    if exists|j: int|
        0 <= j < transport.exchanges.len() && (#[trigger] transport.exchanges[j]).id == id {
        let place = choose|j: int|
            0 <= j < transport.exchanges.len() && (#[trigger] transport.exchanges[j]).id == id;
        lemma_exchange_is_found(transport.exchanges, id, place);
    }
    lemma_found_has_id(transport.exchanges, id);
    if 0 <= i < transport.exchanges.len() && transport.exchanges[i].id == id && (forall|j: int|
        0 <= j < i ==> (#[trigger] transport.exchanges[j]).id != id) {
        crate::transport::shared::first_exchange_is_found(transport.exchanges, id, i);
    }
}

/// An exchange may ask for something exactly if it exists and is active: neither its role
/// nor what is outstanding matters, and one that is made active may ask again.
pub proof fn active_exchange_may_ask(transport: TransportView, id: ExchangeId)
    ensures
        transport.ctx(id) matches Some(ctx) ==> (transport.accepts(id) <==> ctx.state
            == ExchangeState::Active),
        transport.ctx(id) is None ==> !transport.accepts(id),
        transport.ctx(id) is Some ==> transport.moved(id, ExchangeState::Active).accepts(id),
{
    moving_changes_the_state_alone(transport, id, ExchangeState::Active);
}

/// Whether an exchange may ask for something is told by the first entry with its id, and
/// by nothing else in the table: it may exactly if that entry is active.
pub proof fn first_entry_tells_who_may_ask(transport: TransportView, id: ExchangeId, i: int)
    requires
        0 <= i <= transport.exchanges.len(),
        forall|j: int| 0 <= j < i ==> (#[trigger] transport.exchanges[j]).id != id,
        i < transport.exchanges.len() ==> transport.exchanges[i].id == id,
    ensures
        transport.accepts(id) <==> i < transport.exchanges.len() && transport.exchanges[i].state
            == ExchangeState::Active,
{
    context_is_the_first_with_the_id(transport, id, i);
}

/// Putting an exchange into a state writes that state to the first entry with its id.
/// Everything else stays: the other entries, what else this entry holds, the sessions,
/// and whether the sending task has been woken. Without such an entry nothing changes.
pub proof fn moving_writes_one_state(
    transport: TransportView,
    id: ExchangeId,
    state: ExchangeState,
    i: int,
)
    requires
        0 <= i <= transport.exchanges.len(),
        forall|j: int| 0 <= j < i ==> (#[trigger] transport.exchanges[j]).id != id,
        i < transport.exchanges.len() ==> transport.exchanges[i].id == id,
    ensures
        transport.moved(id, state).exchanges.len() == transport.exchanges.len(),
        forall|j: int|
            0 <= j < transport.exchanges.len() && j != i ==> #[trigger] transport.moved(
                id,
                state,
            ).exchanges[j] == transport.exchanges[j],
        i < transport.exchanges.len() ==> {
            let after = transport.moved(id, state).exchanges[i];
            &&& after.state == state
            &&& after.id == id
            &&& after.role == transport.exchanges[i].role
            &&& after.mrp == transport.exchanges[i].mrp
        },
        transport.moved(id, state).sessions == transport.sessions,
        transport.moved(id, state).send_pending == transport.send_pending,
{
    context_is_the_first_with_the_id(transport, id, i);
    if i < transport.exchanges.len() {
        crate::transport::shared::first_exchange_is_found(transport.exchanges, id, i);
    }
}

/// Waking the sending task changes nothing of the exchanges and the sessions.
pub proof fn waking_is_remembered(transport: TransportView)
    ensures
        transport.woken().send_pending == true,
        transport.woken().exchanges == transport.exchanges,
        transport.woken().sessions == transport.sessions,
{
}

/// Closing an exchange closes the first entry with its id and wakes the sending task.
/// Everything else stays. Without such an entry nothing changes at all.
pub proof fn closing_closes_one_exchange(transport: TransportView, id: ExchangeId, i: int)
    requires
        0 <= i <= transport.exchanges.len(),
        forall|j: int| 0 <= j < i ==> (#[trigger] transport.exchanges[j]).id != id,
        i < transport.exchanges.len() ==> transport.exchanges[i].id == id,
    ensures
        transport.closed(id).exchanges.len() == transport.exchanges.len(),
        forall|j: int|
            0 <= j < transport.exchanges.len() && j != i ==> #[trigger] transport.closed(
                id,
            ).exchanges[j] == transport.exchanges[j],
        i < transport.exchanges.len() ==> {
            let after = transport.closed(id).exchanges[i];
            &&& after.state == ExchangeState::Closed
            &&& after.id == id
            &&& after.role == transport.exchanges[i].role
            &&& after.mrp == transport.exchanges[i].mrp
        },
        transport.closed(id).sessions == transport.sessions,
        transport.closed(id).send_pending == (transport.send_pending || i
            < transport.exchanges.len()),
{
    moving_writes_one_state(transport, id, ExchangeState::Closed, i);
    context_is_the_first_with_the_id(transport, id, i);
}

/// A session is found for a packet by four values: the session id, the address of the
/// peer and the kind are the same in both, and so is the node, unless one of them does
/// not name it.
pub proof fn session_fits_by_four_values(
    session: Session,
    sess_id: u16,
    peer_addr: Address,
    peer_nodeid: Option<u64>,
    is_encrypted: bool,
)
    ensures
        session.is_for(sess_id, peer_addr, peer_nodeid, is_encrypted) <==> {
            &&& session.local_sess_id == sess_id
            &&& session.peer_addr == peer_addr
            &&& session.encrypted == is_encrypted
            &&& (session.peer_nodeid matches Some(node) ==> peer_nodeid is None || peer_nodeid
                == Some(node))
        },
{
}

/// The session of an exchange has the session id, the peer and the kind that the exchange
/// has, and its node, where both name one.
pub proof fn session_has_all_that_the_exchange_names(
    transport: TransportView,
    id: ExchangeId,
    i: int,
)
    requires
        transport.session(id) == Ok::<int, Error>(i),
    ensures
        transport.ctx(id) is Some,
        0 <= i < transport.sessions.len(),
        transport.sessions[i].local_sess_id == id.session_id.id,
        transport.sessions[i].peer_addr == id.session_id.peer_addr,
        transport.sessions[i].peer_nodeid is None || id.session_id.peer_nodeid is None
            || transport.sessions[i].peer_nodeid == id.session_id.peer_nodeid,
        transport.sessions[i].encrypted == id.session_id.is_encrypted,
        transport.sessions[i].is_for(
            id.session_id.id,
            id.session_id.peer_addr,
            id.session_id.peer_nodeid,
            id.session_id.is_encrypted,
        ),
{
    assert(crate::transport::session::first_session(
        transport.sessions,
        id.session_id.id,
        id.session_id.peer_addr,
        id.session_id.peer_nodeid,
        id.session_id.is_encrypted,
        i,
    ));
}

/// No session before that of an exchange has the session id, the peer and the kind that
/// the exchange has, and its node, where both name one.
pub proof fn session_is_the_first_of_the_exchange(
    transport: TransportView,
    id: ExchangeId,
    i: int,
    earlier: int,
)
    requires
        transport.session(id) == Ok::<int, Error>(i),
        0 <= earlier < i,
        transport.sessions[earlier].local_sess_id == id.session_id.id,
        transport.sessions[earlier].peer_addr == id.session_id.peer_addr,
        transport.sessions[earlier].encrypted == id.session_id.is_encrypted,
    ensures
        transport.sessions[earlier].peer_nodeid is Some,
        id.session_id.peer_nodeid is Some,
        transport.sessions[earlier].peer_nodeid != id.session_id.peer_nodeid,
        !transport.sessions[earlier].is_for(
            id.session_id.id,
            id.session_id.peer_addr,
            id.session_id.peer_nodeid,
            id.session_id.is_encrypted,
        ),
{
    assert(crate::transport::session::first_session(
        transport.sessions,
        id.session_id.id,
        id.session_id.peer_addr,
        id.session_id.peer_nodeid,
        id.session_id.is_encrypted,
        i,
    ));
    assert(!transport.sessions[earlier].is_for(
        id.session_id.id,
        id.session_id.peer_addr,
        id.session_id.peer_nodeid,
        id.session_id.is_encrypted,
    ));
}

/// An exchange that exists has its session, if some session has the session id, the peer
/// and the kind that the exchange has, and its node, where both name one.
pub proof fn exchange_finds_its_session(
    transport: TransportView,
    id: ExchangeId,
    place: int,
    k: int,
)
    requires
        0 <= place < transport.exchanges.len(),
        transport.exchanges[place].id == id,
        0 <= k < transport.sessions.len(),
        transport.sessions[k].local_sess_id == id.session_id.id,
        transport.sessions[k].peer_addr == id.session_id.peer_addr,
        transport.sessions[k].peer_nodeid is None || id.session_id.peer_nodeid is None
            || transport.sessions[k].peer_nodeid == id.session_id.peer_nodeid,
        transport.sessions[k].encrypted == id.session_id.is_encrypted,
    ensures
        transport.session(id) matches Ok(i) && i <= k,
{
    lemma_exchange_is_found(transport.exchanges, id, place);
    lemma_session_is_found(transport.sessions, id.session_id, k);
}

/// Where an exchange has no session, the error tells whether the exchange itself is
/// missing, which is so if no entry has its id, or only the session.
pub proof fn missing_session_is_told(transport: TransportView, id: ExchangeId)
    ensures
        transport.session(id) == Err::<int, Error>(Error { code: ErrorCode::NoExchange }) <==> (
        forall|e: int|
            0 <= e < transport.exchanges.len() ==> (#[trigger] transport.exchanges[e]).id != id),
        transport.session(id) matches Err(e) ==> e.code == ErrorCode::NoExchange || e.code
            == ErrorCode::NoSession,
{
    context_is_the_first_with_the_id(transport, id, 0);
}

/// Two packets belong to the same session exactly if they name the same session id,
/// came from the same peer, name the same node, or none, and are of the same kind. A
/// session that has these values of a packet is one that the packet belongs to.
pub proof fn packets_of_a_session_agree(a: Packet, b: Packet, session: Session)
    ensures
        crate::transport::exchange::session_of(a) == crate::transport::exchange::session_of(b)
            <==> {
            &&& a.plain.sess_id == b.plain.sess_id
            &&& a.peer == b.peer
            &&& a.plain.src_nodeid == b.plain.src_nodeid
            &&& a.plain.encrypted == b.plain.encrypted
        },
        session == (Session {
            local_sess_id: a.plain.sess_id,
            peer_addr: a.peer,
            peer_nodeid: a.plain.src_nodeid,
            encrypted: a.plain.encrypted,
        }) ==> ({
            let id = crate::transport::exchange::session_of(a);
            session.is_for(id.id, id.peer_addr, id.peer_nodeid, id.is_encrypted)
        }),
        crate::transport::exchange::session_of(a).id == a.plain.sess_id,
        crate::transport::exchange::session_of(a).peer_addr == a.peer,
        crate::transport::exchange::session_of(a).peer_nodeid == a.plain.src_nodeid,
        crate::transport::exchange::session_of(a).is_encrypted == a.plain.encrypted,
{
}

/// Putting an exchange into a state changes that state and nothing else of it.
pub proof fn moving_changes_the_state_alone(
    transport: TransportView,
    id: ExchangeId,
    state: ExchangeState,
)
    ensures
        transport.moved(id, state).ctx(id) == match transport.ctx(id) {
            Some(ctx) => Some(ExchangeCtx { state, ..ctx }),
            None => None,
        },
{
    lemma_found_has_id(transport.exchanges, id);
    lemma_find_by_id_only(transport.exchanges, transport.moved(id, state).exchanges, id);
}

/// What is done to one exchange does not touch another one, nor the sessions.
pub proof fn moving_leaves_others_alone(
    transport: TransportView,
    id: ExchangeId,
    state: ExchangeState,
    other: ExchangeId,
)
    requires
        other != id,
    ensures
        transport.moved(id, state).ctx(other) == transport.ctx(other),
        transport.moved(id, state).sessions == transport.sessions,
        transport.closed(id).ctx(other) == transport.ctx(other),
        transport.closed(id).sessions == transport.sessions,
{
    lemma_found_has_id(transport.exchanges, id);
    lemma_found_has_id(transport.exchanges, other);
    lemma_find_by_id_only(transport.exchanges, transport.moved(id, state).exchanges, other);
    lemma_find_by_id_only(transport.exchanges, transport.closed(id).exchanges, other);
}

/// Whatever exchanges ask for, each keeps its session.
pub proof fn requests_keep_the_sessions(
    transport: TransportView,
    id: ExchangeId,
    state: ExchangeState,
    any: ExchangeId,
)
    ensures
        transport.moved(id, state).session(any) == transport.session(any),
        transport.closed(id).session(any) == transport.session(any),
        transport.woken().session(any) == transport.session(any),
{
    lemma_found_has_id(transport.exchanges, id);
    lemma_find_by_id_only(transport.exchanges, transport.moved(id, state).exchanges, any);
    lemma_find_by_id_only(transport.exchanges, transport.closed(id).exchanges, any);
}

/// An exchange asks for one thing at a time: while what it asked for is not done, it
/// is refused everything else.
pub proof fn busy_exchange_is_refused(
    transport: TransportView,
    id: ExchangeId,
    state: ExchangeState,
)
    requires
        state !is Active,
    ensures
        !transport.moved(id, state).accepts(id),
        !transport.moved(id, state).woken().accepts(id),
{
    moving_changes_the_state_alone(transport, id, state);
    assert(transport.moved(id, state).woken().exchanges == transport.moved(id, state).exchanges);
}

/// A closed exchange stays closed: it is refused everything, and closing it again
/// changes nothing.
pub proof fn closing_is_final(transport: TransportView, id: ExchangeId)
    ensures
        !transport.closed(id).accepts(id),
        transport.closed(id).ctx(id) matches Some(ctx) ==> ctx.state is Closed,
        transport.closed(id).closed(id) == transport.closed(id),
{
    let closed = transport.closed(id);
    moving_changes_the_state_alone(transport, id, ExchangeState::Closed);
    lemma_found_has_id(transport.exchanges, id);
    lemma_find_by_id_only(transport.exchanges, closed.exchanges, id);
    if transport.ctx(id) is Some {
        assert(closed.exchanges == transport.moved(id, ExchangeState::Closed).exchanges);
        assert(closed.closed(id).exchanges =~= closed.exchanges);
    }
}

/// Closing an exchange undoes whatever it asked for last.
pub proof fn closing_forgets_the_request(
    transport: TransportView,
    id: ExchangeId,
    state: ExchangeState,
)
    ensures
        transport.moved(id, state).closed(id) == transport.closed(id),
{
    let moved = transport.moved(id, state);
    lemma_found_has_id(transport.exchanges, id);
    lemma_find_by_id_only(transport.exchanges, moved.exchanges, id);
    assert(moved.closed(id).exchanges =~= transport.closed(id).exchanges);
}

/// It does not matter which of two exchanges asks first.
pub proof fn requests_of_two_exchanges_commute(
    transport: TransportView,
    id: ExchangeId,
    state: ExchangeState,
    other: ExchangeId,
    other_state: ExchangeState,
)
    requires
        other != id,
    ensures
        transport.moved(id, state).moved(other, other_state) == transport.moved(
            other,
            other_state,
        ).moved(id, state),
{
    let first = transport.moved(id, state);
    let second = transport.moved(other, other_state);
    lemma_found_has_id(transport.exchanges, id);
    lemma_found_has_id(transport.exchanges, other);
    lemma_find_by_id_only(transport.exchanges, first.exchanges, other);
    lemma_find_by_id_only(transport.exchanges, second.exchanges, id);
    assert(first.moved(other, other_state).exchanges =~= second.moved(id, state).exchanges);
}

/// A node keeps no more exchanges open than it may, whatever they ask for.
pub proof fn requests_keep_the_bound(
    transport: TransportView,
    id: ExchangeId,
    state: ExchangeState,
)
    requires
        transport.exchanges.len() <= MAX_EXCHANGES,
    ensures
        transport.moved(id, state).exchanges.len() <= MAX_EXCHANGES,
        transport.closed(id).exchanges.len() <= MAX_EXCHANGES,
{
}

/// What is put into a pipe comes out of it: the same bytes, and the same peer. Then
/// the pipe is free again.
pub proof fn pipe_delivers(buf: Seq<u8>, len: usize, addr: Address)
    requires
        len <= buf.len(),
    ensures
        PipeView::filled(buf, len, addr).wf(),
        !PipeView::filled(buf, len, addr).is_free(),
        PipeView::filled(buf, len, addr).payload() == buf.take(len as int),
        PipeView::filled(buf, len, addr).chunk->0.addr == addr,
        PipeView::filled(buf, len, addr).consumed().is_free(),
{
}

/// Offering a packet leaves the pipe well-formed. It holds the packet if one was
/// encoded that is not empty, and is free otherwise.
pub proof fn offering_fills_with_what_was_encoded(
    buf: Seq<u8>,
    encoded: Result<usize, Error>,
    addr: Address,
)
    requires
        encoded matches Ok(len) ==> len <= buf.len(),
    ensures
        PipeView::offered(buf, encoded, addr).wf(),
        !PipeView::offered(buf, encoded, addr).is_free() <==> (encoded matches Ok(len) && len > 0),
        encoded matches Ok(len) ==> len > 0 ==> {
            &&& PipeView::offered(buf, encoded, addr).payload() == buf.take(len as int)
            &&& PipeView::offered(buf, encoded, addr).chunk->0.addr == addr
        },
{
}

/// Whether a pipe is well-formed and whether it is free depends on the packet that it
/// holds alone; its payload are the bytes of its buffer from the start of the packet to
/// before its end.
pub proof fn pipe_holds_a_part_of_its_buffer(pipe: PipeView, k: int)
    ensures
        pipe.is_free() <==> pipe.chunk == None::<Chunk>,
        pipe.wf() <==> (pipe.chunk is None || pipe.chunk->0.start <= pipe.chunk->0.end
            <= pipe.buf.len()),
        pipe.wf() && pipe.chunk is Some ==> {
            &&& pipe.payload().len() == pipe.chunk->0.end - pipe.chunk->0.start
            &&& 0 <= k < pipe.payload().len() ==> pipe.payload()[k] == pipe.buf[pipe.chunk->0.start
                + k]
        },
{
}

/// Consuming a packet frees the pipe and keeps its buffer, whatever it held.
pub proof fn consuming_frees_the_pipe(pipe: PipeView)
    ensures
        pipe.consumed().chunk == None::<Chunk>,
        pipe.consumed().buf == pipe.buf,
{
}

/// What is put into a pipe starts at the start of the buffer, has the given length and
/// the given peer; the buffer itself is as it was written. An empty packet and a failure
/// put nothing into it.
pub proof fn filling_marks_the_start_of_the_buffer(buf: Seq<u8>, len: usize, addr: Address, e: Error)
    ensures
        PipeView::filled(buf, len, addr).buf == buf,
        PipeView::filled(buf, len, addr).chunk == Some(Chunk { start: 0, end: len, addr }),
        PipeView::offered(buf, Ok::<usize, Error>(len), addr).buf == buf,
        PipeView::offered(buf, Ok::<usize, Error>(len), addr).chunk == if len == 0 {
            None
        } else {
            Some(Chunk { start: 0, end: len, addr })
        },
        PipeView::offered(buf, Err::<usize, Error>(e), addr).buf == buf,
        PipeView::offered(buf, Err::<usize, Error>(e), addr).chunk == None::<Chunk>,
{
}

} // verus!
