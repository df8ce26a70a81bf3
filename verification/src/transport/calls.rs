//! What the calls do to the tables of a node, told by the entries that they find and
//! leave there.
use crate::error::{Error, ErrorCode};
use crate::notification::Notification;
use crate::transport::exchange::{
    Exchange, ExchangeCtr, ExchangeCtx, ExchangeId, ExchangeState, PacketRef, ReliableMessage, Role,
    SessionId,
};
use crate::transport::network::{Address, Ipv4Addr, SocketAddr};
use crate::transport::packet::{Packet, PlainHdr};
use crate::transport::pipe::{Chunk, PipeData};
use crate::transport::session::{Session, SessionMgr};
use crate::transport::shared::{Transport, TransportView};
use vstd::prelude::*;

verus! {

/// A session id loaded from a packet has the session id, the peer, the node and the kind
/// of the packet.
pub proof fn loaded_session_id_is_the_packets(rx: Packet, id: SessionId)
    requires
        call_ensures(SessionId::load, (&rx,), id),
    ensures
        id.id == rx.plain.sess_id,
        id.peer_addr == rx.peer,
        id.peer_nodeid == rx.plain.src_nodeid,
        id.is_encrypted == rx.plain.encrypted,
{
}

/// An exchange id loaded from a packet has the exchange id of the packet, and names the
/// session by what the packet says of it.
pub proof fn loaded_exchange_id_is_the_packets(rx: Packet, id: ExchangeId)
    requires
        call_ensures(ExchangeId::load, (&rx,), id),
    ensures
        id.id == rx.proto.exch_id,
        id.session_id.id == rx.plain.sess_id,
        id.session_id.peer_addr == rx.peer,
        id.session_id.peer_nodeid == rx.plain.src_nodeid,
        id.session_id.is_encrypted == rx.plain.encrypted,
{
}

/// Two packets give the same exchange exactly if they agree in the exchange id, the
/// session id, the peer, the node and the kind.
pub proof fn packets_of_an_exchange_agree(a: Packet, b: Packet, of_a: ExchangeId, of_b: ExchangeId)
    requires
        call_ensures(ExchangeId::load, (&a,), of_a),
        call_ensures(ExchangeId::load, (&b,), of_b),
    ensures
        of_a == of_b <==> {
            &&& a.proto.exch_id == b.proto.exch_id
            &&& a.plain.sess_id == b.plain.sess_id
            &&& a.peer == b.peer
            &&& a.plain.src_nodeid == b.plain.src_nodeid
            &&& a.plain.encrypted == b.plain.encrypted
        },
{
}

/// The header of a packet tells the node and the kind that it holds.
pub proof fn header_tells_what_it_holds(plain: PlainHdr, node: Option<u64>, encrypted: bool)
    requires
        call_ensures(PlainHdr::get_src_u64, (&plain,), node),
        call_ensures(PlainHdr::is_encrypted, (&plain,), encrypted),
    ensures
        node == plain.src_nodeid,
        encrypted == plain.encrypted,
{
}

/// An exchange tells its own id, before and after it was constructed.
pub proof fn exchange_tells_its_id(
    exchange: Exchange,
    id: &ExchangeId,
    ctr: ExchangeCtr,
    ctr_id: &ExchangeId,
)
    requires
        call_ensures(Exchange::id, (&exchange,), id),
        call_ensures(ExchangeCtr::id, (&ctr,), ctr_id),
    ensures
        *id == exchange.id,
        *ctr_id == ctr.exchange.id,
{
}

/// The two sides of an exchange never have the same role: whoever faces an initiator is
/// the responder. A side that nothing is said of is the initiator.
pub proof fn roles_face_each_other(
    is_initiator: bool,
    facing: Role,
    facing_the_other: Role,
    unsaid: Role,
)
    requires
        call_ensures(Role::complementary, (is_initiator,), facing),
        call_ensures(Role::complementary, (!is_initiator,), facing_the_other),
        call_ensures(<Role as Default>::default, (), unsaid),
    ensures
        facing != facing_the_other,
        facing == Role::Responder <==> is_initiator,
        unsaid == Role::Initiator,
{
}

/// Nothing is left to do for the reliability layer exactly if nothing is outstanding.
pub proof fn nothing_outstanding_is_nothing_to_do(mrp: ReliableMessage, empty: bool)
    requires
        call_ensures(ReliableMessage::is_empty, (&mrp,), empty),
    ensures
        empty <==> !mrp.outstanding,
{
}

/// Every request may be made at any time: whether the exchange exists and is active is
/// for the transport to judge.
pub proof fn requests_may_be_made_at_any_time(
    ctr: ExchangeCtr,
    owned: Exchange,
    exchange: &mut Exchange,
    transport: &mut Transport,
    notification: &mut Notification,
    tx: PacketRef,
    rx: PacketRef,
)
    ensures
        call_requires(ExchangeCtr::get, (ctr, transport, notification, rx)),
        call_requires(Exchange::acknowledge, (exchange, transport)),
        call_requires(Exchange::exchange, (exchange, transport, tx, rx)),
        call_requires(Exchange::send_complete, (exchange, transport, tx)),
        call_requires(Exchange::complete, (owned, transport, tx)),
        call_requires(Exchange::close, (exchange, transport)),
{
}

/// Asking for an answer to `tx` is granted exactly if the first entry with the id of the
/// exchange is active. Then that entry names both packets and the notification of the
/// exchange, and the sending task is woken. Otherwise nothing changes.
pub proof fn exchanging_writes_both_packets(
    exchange: &mut Exchange,
    transport: &mut Transport,
    tx: PacketRef,
    rx: PacketRef,
    result: Result<(), Error>,
    i: int,
)
    requires
        call_ensures(Exchange::exchange, (exchange, transport, tx, rx), result),
        0 <= i <= transport.exchanges@.len(),
        forall|j: int| 0 <= j < i ==> (#[trigger] transport.exchanges@[j]).id != exchange.id,
        i < transport.exchanges@.len() ==> transport.exchanges@[i].id == exchange.id,
    ensures
        final(exchange).id == old(exchange).id,
        final(exchange).notification == old(exchange).notification,
        final(transport).session_mgr.sessions@ == old(transport).session_mgr.sessions@,
        i < old(transport).exchanges@.len() && old(transport).exchanges@[i].state
            == ExchangeState::Active ==> {
            &&& result == Ok::<(), Error>(())
            &&& final(transport).exchanges@ == old(transport).exchanges@.update(
                i,
                ExchangeCtx {
                    id: old(transport).exchanges@[i].id,
                    role: old(transport).exchanges@[i].role,
                    mrp: old(transport).exchanges@[i].mrp,
                    state: ExchangeState::ExchangeSend {
                        tx,
                        rx,
                        notification: old(exchange).notification,
                    },
                },
            )
            &&& crate::notification::slot(final(transport).send_notification).len() > 0
        },
        i == old(transport).exchanges@.len() || old(transport).exchanges@[i].state
            != ExchangeState::Active ==> {
            &&& result == Err::<(), Error>(Error { code: ErrorCode::NoExchange })
            &&& final(transport).exchanges@ == old(transport).exchanges@
            &&& (crate::notification::slot(final(transport).send_notification).len() > 0) == (
            crate::notification::slot(old(transport).send_notification).len() > 0)
        },
{
    crate::transport::laws::context_is_the_first_with_the_id(transport@, exchange.id, i);
    if i < transport.exchanges@.len() {
        crate::transport::shared::first_exchange_is_found(transport.exchanges@, exchange.id, i);
    }
}

/// Sending a last packet is granted exactly if the first entry with the id of the
/// exchange is active. Then that entry names the packet and the notification of the
/// exchange, and the sending task is woken. Otherwise nothing changes.
pub proof fn sending_the_last_packet_writes_it(
    exchange: &mut Exchange,
    transport: &mut Transport,
    tx: PacketRef,
    result: Result<(), Error>,
    i: int,
)
    requires
        call_ensures(Exchange::send_complete, (exchange, transport, tx), result),
        0 <= i <= transport.exchanges@.len(),
        forall|j: int| 0 <= j < i ==> (#[trigger] transport.exchanges@[j]).id != exchange.id,
        i < transport.exchanges@.len() ==> transport.exchanges@[i].id == exchange.id,
    ensures
        final(exchange).id == old(exchange).id,
        final(exchange).notification == old(exchange).notification,
        final(transport).session_mgr.sessions@ == old(transport).session_mgr.sessions@,
        i < old(transport).exchanges@.len() && old(transport).exchanges@[i].state
            == ExchangeState::Active ==> {
            &&& result == Ok::<(), Error>(())
            &&& final(transport).exchanges@ == old(transport).exchanges@.update(
                i,
                ExchangeCtx {
                    id: old(transport).exchanges@[i].id,
                    role: old(transport).exchanges@[i].role,
                    mrp: old(transport).exchanges@[i].mrp,
                    state: ExchangeState::Complete {
                        tx,
                        notification: old(exchange).notification,
                    },
                },
            )
            &&& crate::notification::slot(final(transport).send_notification).len() > 0
        },
        i == old(transport).exchanges@.len() || old(transport).exchanges@[i].state
            != ExchangeState::Active ==> {
            &&& result == Err::<(), Error>(Error { code: ErrorCode::NoExchange })
            &&& final(transport).exchanges@ == old(transport).exchanges@
            &&& (crate::notification::slot(final(transport).send_notification).len() > 0) == (
            crate::notification::slot(old(transport).send_notification).len() > 0)
        },
{
    crate::transport::laws::context_is_the_first_with_the_id(transport@, exchange.id, i);
    if i < transport.exchanges@.len() {
        crate::transport::shared::first_exchange_is_found(transport.exchanges@, exchange.id, i);
    }
}

/// Completing hands the same exchange back, with its last packet written, exactly if the
/// first entry with its id is active. Otherwise that entry, if there is one, is closed.
/// The sending task is woken in both cases, unless there is no such entry.
pub proof fn completing_writes_or_closes(
    exchange: Exchange,
    transport: &mut Transport,
    tx: PacketRef,
    result: Result<Exchange, Error>,
    i: int,
)
    requires
        call_ensures(Exchange::complete, (exchange, transport, tx), result),
        0 <= i <= transport.exchanges@.len(),
        forall|j: int| 0 <= j < i ==> (#[trigger] transport.exchanges@[j]).id != exchange.id,
        i < transport.exchanges@.len() ==> transport.exchanges@[i].id == exchange.id,
    ensures
        final(transport).session_mgr.sessions@ == old(transport).session_mgr.sessions@,
        i < old(transport).exchanges@.len() ==> {
            let granted = old(transport).exchanges@[i].state == ExchangeState::Active;
            &&& granted ==> result == Ok::<Exchange, Error>(exchange)
            &&& !granted ==> result == Err::<Exchange, Error>(
                Error { code: ErrorCode::NoExchange },
            )
            &&& final(transport).exchanges@ == old(transport).exchanges@.update(
                i,
                ExchangeCtx {
                    id: old(transport).exchanges@[i].id,
                    role: old(transport).exchanges@[i].role,
                    mrp: old(transport).exchanges@[i].mrp,
                    state: if granted {
                        ExchangeState::Complete { tx, notification: exchange.notification }
                    } else {
                        ExchangeState::Closed
                    },
                },
            )
            &&& crate::notification::slot(final(transport).send_notification).len() > 0
        },
        i == old(transport).exchanges@.len() ==> {
            &&& result == Err::<Exchange, Error>(Error { code: ErrorCode::NoExchange })
            &&& final(transport).exchanges@ == old(transport).exchanges@
            &&& (crate::notification::slot(final(transport).send_notification).len() > 0) == (
            crate::notification::slot(old(transport).send_notification).len() > 0)
        },
{
    crate::transport::laws::context_is_the_first_with_the_id(transport@, exchange.id, i);
    if i < transport.exchanges@.len() {
        crate::transport::shared::first_exchange_is_found(transport.exchanges@, exchange.id, i);
    }
}

/// Asking for acknowledgements is granted exactly if the first entry with the id of the
/// exchange is active. Where something is outstanding there, the entry names the
/// notification of the exchange, and the sending task is woken; where nothing is, nothing
/// changes, and there is nothing to wait for. A refusal changes nothing either.
pub proof fn acknowledging_waits_for_what_is_outstanding(
    exchange: &mut Exchange,
    transport: &mut Transport,
    wait: Result<bool, Error>,
    i: int,
)
    requires
        call_ensures(Exchange::acknowledge, (exchange, transport), wait),
        0 <= i <= transport.exchanges@.len(),
        forall|j: int| 0 <= j < i ==> (#[trigger] transport.exchanges@[j]).id != exchange.id,
        i < transport.exchanges@.len() ==> transport.exchanges@[i].id == exchange.id,
    ensures
        final(exchange).id == old(exchange).id,
        final(exchange).notification == old(exchange).notification,
        final(transport).session_mgr.sessions@ == old(transport).session_mgr.sessions@,
        i < old(transport).exchanges@.len() && old(transport).exchanges@[i].state
            == ExchangeState::Active ==> wait == Ok::<bool, Error>(
            old(transport).exchanges@[i].mrp.outstanding,
        ),
        i == old(transport).exchanges@.len() || old(transport).exchanges@[i].state
            != ExchangeState::Active ==> wait == Err::<bool, Error>(
            Error { code: ErrorCode::NoExchange },
        ),
        wait == Ok::<bool, Error>(true) ==> {
            &&& final(transport).exchanges@ == old(transport).exchanges@.update(
                i,
                ExchangeCtx {
                    id: old(transport).exchanges@[i].id,
                    role: old(transport).exchanges@[i].role,
                    mrp: old(transport).exchanges@[i].mrp,
                    state: ExchangeState::Acknowledge {
                        notification: old(exchange).notification,
                    },
                },
            )
            &&& crate::notification::slot(final(transport).send_notification).len() > 0
        },
        wait != Ok::<bool, Error>(true) ==> {
            &&& final(transport).exchanges@ == old(transport).exchanges@
            &&& (crate::notification::slot(final(transport).send_notification).len() > 0) == (
            crate::notification::slot(old(transport).send_notification).len() > 0)
        },
{
    crate::transport::laws::context_is_the_first_with_the_id(transport@, exchange.id, i);
    if i < transport.exchanges@.len() {
        crate::transport::shared::first_exchange_is_found(transport.exchanges@, exchange.id, i);
    }
}

/// Closing an exchange closes the first entry with its id, whatever that was doing, and
/// wakes the sending task. Everything else stays, and without such an entry nothing
/// changes.
pub proof fn closing_writes_closed(exchange: &mut Exchange, transport: &mut Transport, i: int)
    requires
        call_ensures(Exchange::close, (exchange, transport), ()),
        0 <= i <= transport.exchanges@.len(),
        forall|j: int| 0 <= j < i ==> (#[trigger] transport.exchanges@[j]).id != exchange.id,
        i < transport.exchanges@.len() ==> transport.exchanges@[i].id == exchange.id,
    ensures
        final(exchange).id == old(exchange).id,
        final(exchange).notification == old(exchange).notification,
        final(transport).session_mgr.sessions@ == old(transport).session_mgr.sessions@,
        i < old(transport).exchanges@.len() ==> {
            &&& final(transport).exchanges@ == old(transport).exchanges@.update(
                i,
                ExchangeCtx {
                    id: old(transport).exchanges@[i].id,
                    role: old(transport).exchanges@[i].role,
                    mrp: old(transport).exchanges@[i].mrp,
                    state: ExchangeState::Closed,
                },
            )
            &&& crate::notification::slot(final(transport).send_notification).len() > 0
        },
        i == old(transport).exchanges@.len() ==> {
            &&& final(transport).exchanges@ == old(transport).exchanges@
            &&& (crate::notification::slot(final(transport).send_notification).len() > 0) == (
            crate::notification::slot(old(transport).send_notification).len() > 0)
        },
{
    crate::transport::laws::context_is_the_first_with_the_id(transport@, exchange.id, i);
    if i < transport.exchanges@.len() {
        crate::transport::shared::first_exchange_is_found(transport.exchanges@, exchange.id, i);
    }
}

/// Constructing an exchange hands it out exactly if the first entry with its id is
/// active. Then that entry names the buffer for the packet and the notification of the
/// exchange, the holder of the packet is woken, and the sending task is not. Otherwise
/// the entry, if there is one, is closed, the sending task is woken, and the holder of
/// the packet is not.
pub proof fn constructing_writes_or_closes(
    ctr: ExchangeCtr,
    transport: &mut Transport,
    construction_notification: &mut Notification,
    rx: PacketRef,
    result: Result<Exchange, Error>,
    i: int,
)
    requires
        call_ensures(ExchangeCtr::get, (ctr, transport, construction_notification, rx), result),
        0 <= i <= transport.exchanges@.len(),
        forall|j: int| 0 <= j < i ==> (#[trigger] transport.exchanges@[j]).id != ctr.exchange.id,
        i < transport.exchanges@.len() ==> transport.exchanges@[i].id == ctr.exchange.id,
    ensures
        final(transport).session_mgr.sessions@ == old(transport).session_mgr.sessions@,
        i < old(transport).exchanges@.len() ==> {
            let granted = old(transport).exchanges@[i].state == ExchangeState::Active;
            &&& granted ==> {
                &&& result == Ok::<Exchange, Error>(ctr.exchange)
                &&& crate::notification::slot(*final(construction_notification)).len() > 0
                &&& (crate::notification::slot(final(transport).send_notification).len() > 0) == (
                crate::notification::slot(old(transport).send_notification).len() > 0)
            }
            &&& !granted ==> {
                &&& result == Err::<Exchange, Error>(Error { code: ErrorCode::NoExchange })
                &&& *final(construction_notification) == *old(construction_notification)
                &&& crate::notification::slot(final(transport).send_notification).len() > 0
            }
            &&& final(transport).exchanges@ == old(transport).exchanges@.update(
                i,
                ExchangeCtx {
                    id: old(transport).exchanges@[i].id,
                    role: old(transport).exchanges@[i].role,
                    mrp: old(transport).exchanges@[i].mrp,
                    state: if granted {
                        ExchangeState::Construction {
                            rx,
                            notification: ctr.exchange.notification,
                        }
                    } else {
                        ExchangeState::Closed
                    },
                },
            )
        },
        i == old(transport).exchanges@.len() ==> {
            &&& result == Err::<Exchange, Error>(Error { code: ErrorCode::NoExchange })
            &&& *final(construction_notification) == *old(construction_notification)
            &&& final(transport).exchanges@ == old(transport).exchanges@
            &&& (crate::notification::slot(final(transport).send_notification).len() > 0) == (
            crate::notification::slot(old(transport).send_notification).len() > 0)
        },
{
    crate::transport::laws::context_is_the_first_with_the_id(transport@, ctr.exchange.id, i);
    if i < transport.exchanges@.len() {
        crate::transport::shared::first_exchange_is_found(
            transport.exchanges@,
            ctr.exchange.id,
            i,
        );
    }
}

/// The first session that fits is the session of an exchange that exists; where none
/// fits it has none.
proof fn lemma_session_of_exchange(transport: TransportView, id: ExchangeId, k: int)
    requires
        0 <= k <= transport.sessions.len(),
        forall|j: int|
            0 <= j < k ==> {
                ||| (#[trigger] transport.sessions[j]).local_sess_id != id.session_id.id
                ||| transport.sessions[j].peer_addr != id.session_id.peer_addr
                ||| transport.sessions[j].peer_nodeid is Some && id.session_id.peer_nodeid is Some
                    && transport.sessions[j].peer_nodeid != id.session_id.peer_nodeid
                ||| transport.sessions[j].encrypted != id.session_id.is_encrypted
            },
        k < transport.sessions.len() ==> {
            &&& transport.sessions[k].local_sess_id == id.session_id.id
            &&& transport.sessions[k].peer_addr == id.session_id.peer_addr
            &&& transport.sessions[k].peer_nodeid is None || id.session_id.peer_nodeid is None
                || transport.sessions[k].peer_nodeid == id.session_id.peer_nodeid
            &&& transport.sessions[k].encrypted == id.session_id.is_encrypted
        },
    ensures
        (forall|j: int|
            0 <= j < transport.exchanges.len() ==> (#[trigger] transport.exchanges[j]).id != id)
            ==> transport.session(id) == Err::<int, Error>(Error { code: ErrorCode::NoExchange }),
        (exists|j: int|
            0 <= j < transport.exchanges.len() && (#[trigger] transport.exchanges[j]).id == id)
            ==> transport.session(id) == if k < transport.sessions.len() {
            Ok::<int, Error>(k)
        } else {
            Err::<int, Error>(Error { code: ErrorCode::NoSession })
        },
{
    crate::transport::laws::missing_session_is_told(transport, id);
    if let Ok(i) = transport.session(id) {
        crate::transport::laws::session_has_all_that_the_exchange_names(transport, id, i);
    }
    if exists|j: int|
        0 <= j < transport.exchanges.len() && (#[trigger] transport.exchanges[j]).id == id {
        let place = choose|j: int|
            0 <= j < transport.exchanges.len() && (#[trigger] transport.exchanges[j]).id == id;
        if k < transport.sessions.len() {
            crate::transport::laws::exchange_finds_its_session(transport, id, place, k);
        }
    }
}

/// The session that is handed out to be changed is the first one with the session id,
/// the peer and the kind that the exchange has, and its node, where both name one. What
/// becomes of it stays, and nothing else changes. Without an exchange, or without such a
/// session, nothing is handed out, and the error tells which is missing.
pub proof fn changed_session_is_the_exchanges<F, T>(
    exchange: &Exchange,
    transport: &mut Transport,
    f: F,
    result: Result<T, Error>,
    k: int,
) where F: FnOnce(&mut Session) -> Result<T, Error>
    requires
        call_ensures(Exchange::with_session_mut::<F, T>, (exchange, transport, f), result),
        0 <= k <= transport.session_mgr.sessions@.len(),
        forall|j: int|
            0 <= j < k ==> {
                ||| (#[trigger] transport.session_mgr.sessions@[j]).local_sess_id
                    != exchange.id.session_id.id
                ||| transport.session_mgr.sessions@[j].peer_addr
                    != exchange.id.session_id.peer_addr
                ||| transport.session_mgr.sessions@[j].peer_nodeid is Some
                    && exchange.id.session_id.peer_nodeid is Some
                    && transport.session_mgr.sessions@[j].peer_nodeid
                    != exchange.id.session_id.peer_nodeid
                ||| transport.session_mgr.sessions@[j].encrypted
                    != exchange.id.session_id.is_encrypted
            },
        k < transport.session_mgr.sessions@.len() ==> {
            let session = transport.session_mgr.sessions@[k];
            &&& session.local_sess_id == exchange.id.session_id.id
            &&& session.peer_addr == exchange.id.session_id.peer_addr
            &&& session.peer_nodeid is None || exchange.id.session_id.peer_nodeid is None
                || session.peer_nodeid == exchange.id.session_id.peer_nodeid
            &&& session.encrypted == exchange.id.session_id.is_encrypted
        },
    ensures
        final(transport).exchanges@ == old(transport).exchanges@,
        (crate::notification::slot(final(transport).send_notification).len() > 0) == (
        crate::notification::slot(old(transport).send_notification).len() > 0),
        (forall|j: int|
            0 <= j < old(transport).exchanges@.len() ==> (#[trigger] old(transport).exchanges@[j]).id != exchange.id) ==> {
            &&& result == Err::<T, Error>(Error { code: ErrorCode::NoExchange })
            &&& final(transport).session_mgr.sessions@ == old(transport).session_mgr.sessions@
        },
        (exists|j: int|
            0 <= j < old(transport).exchanges@.len() && (#[trigger] old(transport).exchanges@[j]).id == exchange.id) ==> {
            &&& k == old(transport).session_mgr.sessions@.len() ==> {
                &&& result == Err::<T, Error>(Error { code: ErrorCode::NoSession })
                &&& final(transport).session_mgr.sessions@ == old(transport).session_mgr.sessions@
            }
            &&& k < old(transport).session_mgr.sessions@.len() ==> exists|session: &mut Session|
                {
                    &&& *session == old(transport).session_mgr.sessions@[k]
                    &&& #[trigger] call_ensures(f, (session,), result)
                    &&& final(transport).session_mgr.sessions@ == old(transport).session_mgr.sessions@.update(k, *final(session))
                }
        },
{
    lemma_session_of_exchange(transport@, exchange.id, k);
}

/// The session that is handed out to be read is the first one with the session id, the
/// peer and the kind that the exchange has, and its node, where both name one. Without an
/// exchange, or without such a session, nothing is handed out, and the error tells which
/// is missing.
pub proof fn read_session_is_the_exchanges<F, T, G, A>(
    exchange: &Exchange,
    transport: &Transport,
    f: F,
    result: Result<T, Error>,
    for_session: G,
    accessor: Result<A, Error>,
    k: int,
) where F: FnOnce(&Session) -> Result<T, Error>, G: FnOnce(&Session) -> A
    requires
        call_ensures(Exchange::with_session::<F, T>, (exchange, transport, f), result),
        call_ensures(Exchange::accessor::<G, A>, (exchange, transport, for_session), accessor),
        0 <= k <= transport.session_mgr.sessions@.len(),
        forall|j: int|
            0 <= j < k ==> {
                ||| (#[trigger] transport.session_mgr.sessions@[j]).local_sess_id
                    != exchange.id.session_id.id
                ||| transport.session_mgr.sessions@[j].peer_addr
                    != exchange.id.session_id.peer_addr
                ||| transport.session_mgr.sessions@[j].peer_nodeid is Some
                    && exchange.id.session_id.peer_nodeid is Some
                    && transport.session_mgr.sessions@[j].peer_nodeid
                    != exchange.id.session_id.peer_nodeid
                ||| transport.session_mgr.sessions@[j].encrypted
                    != exchange.id.session_id.is_encrypted
            },
        k < transport.session_mgr.sessions@.len() ==> {
            let session = transport.session_mgr.sessions@[k];
            &&& session.local_sess_id == exchange.id.session_id.id
            &&& session.peer_addr == exchange.id.session_id.peer_addr
            &&& session.peer_nodeid is None || exchange.id.session_id.peer_nodeid is None
                || session.peer_nodeid == exchange.id.session_id.peer_nodeid
            &&& session.encrypted == exchange.id.session_id.is_encrypted
        },
    ensures
        (forall|j: int|
            0 <= j < transport.exchanges@.len() ==> (#[trigger] transport.exchanges@[j]).id
                != exchange.id) ==> {
            &&& result == Err::<T, Error>(Error { code: ErrorCode::NoExchange })
            &&& accessor == Err::<A, Error>(Error { code: ErrorCode::NoExchange })
        },
        (exists|j: int|
            0 <= j < transport.exchanges@.len() && (#[trigger] transport.exchanges@[j]).id
                == exchange.id) ==> {
            &&& k == transport.session_mgr.sessions@.len() ==> {
                &&& result == Err::<T, Error>(Error { code: ErrorCode::NoSession })
                &&& accessor == Err::<A, Error>(Error { code: ErrorCode::NoSession })
            }
            &&& k < transport.session_mgr.sessions@.len() ==> {
                &&& call_ensures(f, (&transport.session_mgr.sessions@[k],), result)
                &&& accessor is Ok
                &&& call_ensures(
                    for_session,
                    (&transport.session_mgr.sessions@[k],),
                    accessor->Ok_0,
                )
            }
        },
{
    lemma_session_of_exchange(transport@, exchange.id, k);
}

/// All sessions are handed out as they are, whether the exchange exists or not. What
/// becomes of them stays, and nothing else changes.
pub proof fn all_sessions_are_handed_out<F, T>(
    exchange: &Exchange,
    transport: &mut Transport,
    f: F,
    result: Result<T, Error>,
) where F: FnOnce(&mut SessionMgr) -> Result<T, Error>
    requires
        call_ensures(Exchange::with_session_mgr_mut::<F, T>, (exchange, transport, f), result),
    ensures
        final(transport).exchanges@ == old(transport).exchanges@,
        (crate::notification::slot(final(transport).send_notification).len() > 0) == (
        crate::notification::slot(old(transport).send_notification).len() > 0),
        exists|session_mgr: &mut SessionMgr|
            {
                &&& *session_mgr == old(transport).session_mgr
                &&& #[trigger] call_ensures(f, (session_mgr,), result)
                &&& final(transport).session_mgr.sessions@ == final(session_mgr).sessions@
            },
{
    assert(transport@.exchanges == transport.exchanges@);
    assert(final(transport)@.exchanges == final(transport).exchanges@);
    assert(final(transport)@.sessions == final(transport).session_mgr.sessions@);
}

/// A new transport has no exchanges and no sessions, and its sending task was not woken.
pub proof fn new_transport_is_empty(transport: Transport, mgr: SessionMgr)
    requires
        call_ensures(Transport::new, (), transport),
        call_ensures(SessionMgr::new, (), mgr),
    ensures
        transport.exchanges@.len() == 0,
        transport.session_mgr.sessions@.len() == 0,
        crate::notification::slot(transport.send_notification).len() == 0,
        mgr.sessions@.len() == 0,
{
    assert(transport@.exchanges == transport.exchanges@);
    assert(transport@.sessions == transport.session_mgr.sessions@);
}

/// An exchange exists exactly if some entry has its id.
pub proof fn exchange_exists_by_its_id(transport: Transport, id: ExchangeId, found: bool)
    requires
        call_ensures(Transport::has, (&transport, &id), found),
    ensures
        found <==> exists|j: int|
            0 <= j < transport.exchanges@.len() && (#[trigger] transport.exchanges@[j]).id == id,
{
    crate::transport::laws::context_is_the_first_with_the_id(transport@, id, 0);
    assert(transport@.exchanges == transport.exchanges@);
}

/// The entry that is handed out to be changed is the first one with the id. What becomes
/// of it stays, and the other entries stay as they are.
pub proof fn first_entry_is_handed_out(
    exchanges: &mut Vec<ExchangeCtx>,
    id: ExchangeId,
    ctx: Option<&mut ExchangeCtx>,
    i: int,
)
    requires
        call_ensures(Transport::get, (exchanges, &id), ctx),
        0 <= i <= exchanges@.len(),
        forall|j: int| 0 <= j < i ==> (#[trigger] exchanges@[j]).id != id,
        i < exchanges@.len() ==> exchanges@[i].id == id,
    ensures
        i < old(exchanges)@.len() ==> {
            &&& ctx is Some
            &&& *(ctx->0) == old(exchanges)@[i]
            &&& final(exchanges)@ == old(exchanges)@.update(i, *final(ctx->0))
        },
        i == old(exchanges)@.len() ==> {
            &&& ctx is None
            &&& final(exchanges)@ == old(exchanges)@
        },
{
    if i < exchanges@.len() {
        crate::transport::shared::first_exchange_is_found(exchanges@, id, i);
    } else if crate::transport::shared::find_exchange(exchanges@, id) is Some {
        let found = choose|k: int|
            crate::transport::shared::first_exchange(exchanges@, id, k);
        assert(crate::transport::shared::first_exchange(exchanges@, id, found));
        assert(exchanges@[found].id != id);
    }
}

/// A session is looked up by four values. The first one is found that has the session
/// id, the peer and the kind, and the node, where both name one.
pub proof fn first_fitting_session_is_found(
    mgr: SessionMgr,
    sess_id: u16,
    peer_addr: Address,
    peer_nodeid: Option<u64>,
    is_encrypted: bool,
    index: Option<usize>,
    k: int,
)
    requires
        call_ensures(
            SessionMgr::get,
            (&mgr, sess_id, peer_addr, peer_nodeid, is_encrypted),
            index,
        ),
        0 <= k < mgr.sessions@.len(),
        mgr.sessions@[k].local_sess_id == sess_id,
        mgr.sessions@[k].peer_addr == peer_addr,
        mgr.sessions@[k].peer_nodeid is None || peer_nodeid is None || mgr.sessions@[k].peer_nodeid
            == peer_nodeid,
        mgr.sessions@[k].encrypted == is_encrypted,
    ensures
        index matches Some(i) && i <= k,
{
    crate::transport::laws::lemma_session_is_found(
        mgr.sessions@,
        SessionId { id: sess_id, peer_addr, peer_nodeid, is_encrypted },
        k,
    );
}

/// A session that is found has the session id, the peer and the kind that were asked
/// for, and the node, where both name one.
pub proof fn found_session_fits(
    mgr: SessionMgr,
    sess_id: u16,
    peer_addr: Address,
    peer_nodeid: Option<u64>,
    is_encrypted: bool,
    index: Option<usize>,
)
    requires
        call_ensures(
            SessionMgr::get,
            (&mgr, sess_id, peer_addr, peer_nodeid, is_encrypted),
            index,
        ),
    ensures
        index matches Some(i) ==> {
            &&& i < mgr.sessions@.len()
            &&& mgr.sessions@[i as int].local_sess_id == sess_id
            &&& mgr.sessions@[i as int].peer_addr == peer_addr
            &&& mgr.sessions@[i as int].peer_nodeid is None || peer_nodeid is None
                || mgr.sessions@[i as int].peer_nodeid == peer_nodeid
            &&& mgr.sessions@[i as int].encrypted == is_encrypted
        },
{
    if index is Some {
        let found = choose|k: int|
            crate::transport::session::first_session(
                mgr.sessions@,
                sess_id,
                peer_addr,
                peer_nodeid,
                is_encrypted,
                k,
            );
        assert(crate::transport::session::first_session(
            mgr.sessions@,
            sess_id,
            peer_addr,
            peer_nodeid,
            is_encrypted,
            found,
        ));
    }
}

/// The session at a place is handed out, if there is one. What becomes of it stays, and
/// the others stay as they are.
pub proof fn session_at_a_place_is_handed_out(
    mgr: &mut SessionMgr,
    index: usize,
    session: Option<&mut Session>,
)
    requires
        call_ensures(SessionMgr::mut_by_index, (mgr, index), session),
    ensures
        session is Some <==> index < old(mgr).sessions@.len(),
        session is Some ==> {
            &&& *(session->0) == old(mgr).sessions@[index as int]
            &&& final(mgr).sessions@ == old(mgr).sessions@.update(index as int, *final(session->0))
        },
        session is None ==> final(mgr).sessions@ == old(mgr).sessions@,
{
}

/// A new pipe is free, and its buffer is the given one.
pub proof fn new_pipe_is_free(buf: Vec<u8>, data: PipeData)
    requires
        call_ensures(PipeData::new, (buf,), data),
    ensures
        data.chunk is None,
        data.buf@ == buf@,
{
    assert(data@.chunk == data.chunk && data@.buf == data.buf@);
}

/// What waits in a pipe is seen as it lies there: its peer, and each of its bytes.
/// Nothing waits in a free pipe.
pub proof fn peeking_shows_what_waits(
    pipe: &PipeData,
    packet: Option<(Address, &[u8])>,
    chunk: Chunk,
    k: int,
)
    requires
        call_ensures(PipeData::peek, (pipe,), packet),
        chunk.start <= chunk.end <= pipe.buf@.len(),
    ensures
        pipe.chunk is None ==> packet is None,
        pipe.chunk == Some(chunk) ==> {
            &&& packet matches Some((addr, bytes))
            &&& addr == chunk.addr
            &&& bytes@.len() == chunk.end - chunk.start
            &&& 0 <= k < chunk.end - chunk.start ==> bytes@[k] == pipe.buf@[chunk.start + k]
        },
{
    assert(pipe@.chunk == pipe.chunk && pipe@.buf == pipe.buf@);
}

/// A consumed packet is gone, the buffer stays, and the wake-up is given.
pub proof fn consuming_clears_the_packet(pipe: &mut PipeData, notification: &mut Notification)
    requires
        call_ensures(PipeData::consume, (pipe, notification), ()),
    ensures
        final(pipe).chunk is None,
        final(pipe).buf@ == old(pipe).buf@,
        crate::notification::slot(*final(notification)).len() > 0,
{
    assert(final(pipe)@.chunk == final(pipe).chunk && final(pipe)@.buf == final(pipe).buf@);
    assert(pipe@.buf == pipe.buf@);
}

/// A supplied packet lies at the start of the buffer, which stays as it is, and the
/// wake-up is given.
pub proof fn supplying_marks_the_packet(
    pipe: &mut PipeData,
    notification: &mut Notification,
    len: usize,
    addr: Address,
)
    requires
        call_ensures(PipeData::supply, (pipe, notification, len, addr), ()),
    ensures
        final(pipe).chunk == Some(Chunk { start: 0, end: len, addr }),
        final(pipe).buf@ == old(pipe).buf@,
        crate::notification::slot(*final(notification)).len() > 0,
{
    assert(final(pipe)@.chunk == final(pipe).chunk && final(pipe)@.buf == final(pipe).buf@);
    assert(pipe@.buf == pipe.buf@);
}

/// An offered packet lies at the start of the buffer, unless it is empty or there is
/// none: then the pipe is free and no wake-up is given. A failure, and only a failure,
/// is returned. The buffer stays as it is.
pub proof fn offering_marks_the_packet(
    pipe: &mut PipeData,
    notification: &mut Notification,
    encoded: Result<usize, Error>,
    addr: Address,
    result: Result<(), Error>,
)
    requires
        call_ensures(PipeData::offer, (pipe, notification, encoded, addr), result),
    ensures
        final(pipe).buf@ == old(pipe).buf@,
        match encoded {
            Ok(len) => {
                &&& result is Ok
                &&& len > 0 ==> {
                    &&& final(pipe).chunk == Some(Chunk { start: 0, end: len, addr })
                    &&& crate::notification::slot(*final(notification)).len() > 0
                }
                &&& len == 0 ==> {
                    &&& final(pipe).chunk is None
                    &&& *final(notification) == *old(notification)
                }
            },
            Err(e) => {
                &&& result == Err::<(), Error>(e)
                &&& final(pipe).chunk is None
                &&& *final(notification) == *old(notification)
            },
        },
{
    assert(final(pipe)@.chunk == final(pipe).chunk && final(pipe)@.buf == final(pipe).buf@);
    assert(pipe@.buf == pipe.buf@);
}

/// A new notification was not given; one that is signalled was. Whether one was given
/// is whether something lies in its slot.
pub proof fn signalling_fills_the_slot(fresh: Notification, notification: &mut Notification)
    requires
        call_ensures(Notification::new, (), fresh),
        call_ensures(Notification::signal, (notification,), ()),
    ensures
        crate::notification::slot(fresh).len() == 0,
        crate::notification::slot(*final(notification)).len() > 0,
        fresh.pending() <==> crate::notification::slot(fresh).len() > 0,
        old(notification).pending() <==> crate::notification::slot(*old(notification)).len() > 0,
{
}

/// The address of a peer and its UDP socket address are the same thing, and an IPv4
/// address has its octets in their order.
pub proof fn addresses_are_kept(
    addr: SocketAddr,
    unwrapped: SocketAddr,
    octets: [u8; 4],
    ip: Ipv4Addr,
)
    requires
        call_ensures(Address::unwrap_udp, (Address::Udp(addr),), unwrapped),
        call_ensures(Ipv4Addr::from_octets, (octets,), ip),
    ensures
        unwrapped == addr,
        ip.0 == octets@[0],
        ip.1 == octets@[1],
        ip.2 == octets@[2],
        ip.3 == octets@[3],
{
}

} // verus!
