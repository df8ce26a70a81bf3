use matter::error::{Error, ErrorCode};
use matter::notification::Notification;
use matter::transport::exchange::{
    Exchange, ExchangeCtr, ExchangeCtx, ExchangeId, ExchangeState, NotificationRef, PacketRef,
    ReliableMessage, Role, SessionId, MAX_EXCHANGES,
};
use matter::transport::network::{Address, IpAddr, Ipv4Addr, Ipv6Addr, SocketAddr};
use matter::transport::packet::{Packet, PlainHdr, ProtoHdr};
use matter::transport::session::Session;
use matter::transport::shared::Transport;

const NO_EXCHANGE: Error = Error { code: ErrorCode::NoExchange };
const NO_SESSION: Error = Error { code: ErrorCode::NoSession };

fn peer(last: u8) -> Address {
    Address::Udp(SocketAddr {
        ip: IpAddr::V4(Ipv4Addr(192, 168, 0, last)),
        port: 5540,
    })
}

fn exchange_id(id: u16) -> ExchangeId {
    ExchangeId {
        id,
        session_id: SessionId {
            id: 7,
            peer_addr: peer(1),
            peer_nodeid: None,
            is_encrypted: true,
        },
    }
}

fn ctx(id: u16, outstanding: bool, state: ExchangeState) -> ExchangeCtx {
    ExchangeCtx {
        id: exchange_id(id),
        role: Role::Responder,
        mrp: ReliableMessage { outstanding },
        state,
    }
}

fn session(sess_id: u16, node: Option<u64>) -> Session {
    Session {
        local_sess_id: sess_id,
        peer_addr: peer(1),
        peer_nodeid: node,
        encrypted: true,
    }
}

fn exchange(id: u16) -> Exchange {
    Exchange {
        id: exchange_id(id),
        notification: NotificationRef(100 + id as usize),
    }
}

/// Exchanges 1 and 2 are active, 3 is closed; 2 has nothing outstanding.
fn transport() -> Transport {
    let mut transport = Transport::new();
    transport.exchanges.push(ctx(1, true, ExchangeState::Active));
    transport.exchanges.push(ctx(2, false, ExchangeState::Active));
    transport.exchanges.push(ctx(3, true, ExchangeState::Closed));
    transport.session_mgr.sessions.push(session(6, None));
    transport.session_mgr.sessions.push(session(7, Some(42)));
    transport
}

fn woken(transport: &Transport) -> bool {
    transport.send_notification.signal.signaled()
}

fn states(transport: &Transport) -> Vec<ExchangeState> {
    transport.exchanges.iter().map(|c| c.state).collect()
}

#[test]
fn roles_are_complementary() {
    assert_eq!(Role::complementary(true), Role::Responder);
    assert_eq!(Role::complementary(false), Role::Initiator);
    assert_eq!(Role::default(), Role::Initiator);
}

#[test]
fn room_for_eight_exchanges() {
    assert_eq!(MAX_EXCHANGES, 8);
}

#[test]
fn ids_are_loaded_from_a_packet() {
    let from = Address::Udp(SocketAddr {
        ip: IpAddr::V6(Ipv6Addr(0xfe80, 0, 0, 0, 0, 0, 0, 9)),
        port: 1234,
    });
    let rx = Packet {
        peer: from,
        plain: PlainHdr { sess_id: 11, src_nodeid: Some(99), encrypted: false },
        proto: ProtoHdr { exch_id: 77 },
    };
    let session_id = SessionId {
        id: 11,
        peer_addr: from,
        peer_nodeid: Some(99),
        is_encrypted: false,
    };
    assert_eq!(SessionId::load(&rx), session_id);
    assert_eq!(ExchangeId::load(&rx), ExchangeId { id: 77, session_id });
}

#[test]
fn acknowledging_with_something_outstanding_waits() {
    let mut t = transport();
    assert_eq!(exchange(1).acknowledge(&mut t), Ok(true));
    assert_eq!(
        states(&t),
        vec![
            ExchangeState::Acknowledge { notification: NotificationRef(101) },
            ExchangeState::Active,
            ExchangeState::Closed,
        ]
    );
    assert!(woken(&t));
}

#[test]
fn acknowledging_with_nothing_outstanding_does_not_wait() {
    let mut t = transport();
    assert_eq!(exchange(2).acknowledge(&mut t), Ok(false));
    assert_eq!(states(&t), states(&transport()));
    assert!(!woken(&t));
}

#[test]
fn refused_requests_change_nothing() {
    for id in [3, 4] {
        let mut t = transport();
        let mut e = exchange(id);
        assert_eq!(e.acknowledge(&mut t), Err(NO_EXCHANGE));
        assert_eq!(e.exchange(&mut t, PacketRef(1), PacketRef(2)), Err(NO_EXCHANGE));
        assert_eq!(e.send_complete(&mut t, PacketRef(1)), Err(NO_EXCHANGE));
        assert_eq!(states(&t), states(&transport()));
        assert!(!woken(&t));
    }
}

#[test]
fn exchanging_lends_both_packets() {
    let mut t = transport();
    assert_eq!(exchange(2).exchange(&mut t, PacketRef(5), PacketRef(6)), Ok(()));
    assert_eq!(
        t.exchanges[1],
        ctx(
            2,
            false,
            ExchangeState::ExchangeSend {
                tx: PacketRef(5),
                rx: PacketRef(6),
                notification: NotificationRef(102),
            }
        )
    );
    assert_eq!(t.exchanges[0], ctx(1, true, ExchangeState::Active));
    assert!(woken(&t));
}

#[test]
fn busy_exchange_is_refused() {
    let mut t = transport();
    let mut e = exchange(1);
    assert_eq!(e.exchange(&mut t, PacketRef(5), PacketRef(6)), Ok(()));
    let before = states(&t);
    assert_eq!(e.acknowledge(&mut t), Err(NO_EXCHANGE));
    assert_eq!(e.exchange(&mut t, PacketRef(7), PacketRef(8)), Err(NO_EXCHANGE));
    assert_eq!(e.send_complete(&mut t, PacketRef(7)), Err(NO_EXCHANGE));
    assert_eq!(states(&t), before);
}

#[test]
fn requests_of_two_exchanges_commute() {
    let mut a = transport();
    exchange(1).send_complete(&mut a, PacketRef(5)).unwrap();
    exchange(2).exchange(&mut a, PacketRef(6), PacketRef(7)).unwrap();
    let mut b = transport();
    exchange(2).exchange(&mut b, PacketRef(6), PacketRef(7)).unwrap();
    exchange(1).send_complete(&mut b, PacketRef(5)).unwrap();
    assert_eq!(states(&a), states(&b));
}

#[test]
fn completing_hands_the_exchange_back() {
    let mut t = transport();
    let mut e = match exchange(1).complete(&mut t, PacketRef(5)) {
        Ok(e) => e,
        Err(_) => panic!("refused"),
    };
    assert_eq!(
        t.exchanges[0].state,
        ExchangeState::Complete { tx: PacketRef(5), notification: NotificationRef(101) }
    );
    assert!(woken(&t));
    e.close(&mut t);
    assert_eq!(t.exchanges[0].state, ExchangeState::Closed);
}

#[test]
fn refused_completion_closes() {
    let mut t = transport();
    t.exchanges[0].state = ExchangeState::Acknowledge { notification: NotificationRef(1) };
    assert!(matches!(exchange(1).complete(&mut t, PacketRef(5)), Err(e) if e == NO_EXCHANGE));
    assert_eq!(t.exchanges[0].state, ExchangeState::Closed);
    assert!(woken(&t));
}

#[test]
fn closing_twice_is_closing_once() {
    let mut t = transport();
    let mut e = exchange(1);
    e.close(&mut t);
    let once = states(&t);
    assert_eq!(once[0], ExchangeState::Closed);
    assert_eq!(once[1], ExchangeState::Active);
    e.close(&mut t);
    assert_eq!(states(&t), once);
    assert_eq!(e.acknowledge(&mut t), Err(NO_EXCHANGE));
    assert!(woken(&t));
}

#[test]
fn closing_an_unknown_exchange_does_nothing() {
    let mut t = transport();
    exchange(4).close(&mut t);
    assert_eq!(states(&t), states(&transport()));
    assert!(!woken(&t));
}

#[test]
fn the_first_of_two_equal_exchanges_is_meant() {
    let mut t = transport();
    t.exchanges.push(ctx(1, true, ExchangeState::Active));
    exchange(1).close(&mut t);
    assert_eq!(t.exchanges[0].state, ExchangeState::Closed);
    assert_eq!(t.exchanges[3].state, ExchangeState::Active);
}

#[test]
fn constructing_wakes_the_holder_of_the_packet() {
    let mut t = transport();
    let mut n = Notification::new();
    let ctr = ExchangeCtr { exchange: exchange(1) };
    assert_eq!(*ctr.id(), exchange_id(1));
    let e = match ctr.get(&mut t, &mut n, PacketRef(9)) {
        Ok(e) => e,
        Err(_) => panic!("refused"),
    };
    assert_eq!(*e.id(), exchange_id(1));
    assert_eq!(
        t.exchanges[0].state,
        ExchangeState::Construction { rx: PacketRef(9), notification: NotificationRef(101) }
    );
    assert!(n.signal.signaled());
    assert!(!woken(&t));
}

#[test]
fn refused_construction_closes() {
    let mut t = transport();
    t.exchanges[0].state = ExchangeState::CompleteAcknowledge {
        _tx: PacketRef(1),
        notification: NotificationRef(2),
    };
    let mut n = Notification::new();
    let ctr = ExchangeCtr { exchange: exchange(1) };
    assert!(matches!(ctr.get(&mut t, &mut n, PacketRef(9)), Err(e) if e == NO_EXCHANGE));
    assert_eq!(t.exchanges[0].state, ExchangeState::Closed);
    assert!(!n.signal.signaled());
    assert!(woken(&t));
}

#[test]
fn session_of_an_exchange_can_be_changed() {
    let mut t = transport();
    let e = exchange(1);
    let changed = e.with_session_mut(&mut t, |s| {
        s.peer_nodeid = Some(43);
        Ok(s.local_sess_id)
    });
    assert_eq!(changed, Ok(7));
    assert_eq!(t.session_mgr.sessions, vec![session(6, None), session(7, Some(43))]);
    assert_eq!(e.with_session(&t, |s| Ok(s.peer_nodeid)), Ok(Some(43)));
    assert_eq!(e.accessor(&t, |s| s.local_sess_id), Ok(7));
}

#[test]
fn what_is_done_with_the_session_may_fail() {
    let mut t = transport();
    let e = exchange(1);
    let no_space = Error::new(ErrorCode::NoSpace);
    assert_eq!(e.with_session_mut::<_, ()>(&mut t, |_| Err(no_space)), Err(no_space));
    assert_eq!(e.with_session::<_, ()>(&t, |_| Err(no_space)), Err(no_space));
}

#[test]
fn missing_exchange_or_session_is_told() {
    let mut t = transport();
    for (id, error) in [(4, NO_EXCHANGE), (1, NO_SESSION)] {
        if error == NO_SESSION {
            t.session_mgr.sessions.pop();
        }
        let before = t.session_mgr.sessions.clone();
        let e = exchange(id);
        assert_eq!(e.with_session_mut::<_, ()>(&mut t, |_| panic!("no session")), Err(error));
        assert_eq!(e.with_session::<_, ()>(&t, |_| panic!("no session")), Err(error));
        assert_eq!(e.accessor::<_, ()>(&t, |_| panic!("no session")), Err(error));
        assert_eq!(t.session_mgr.sessions, before);
    }
}

#[test]
fn sessions_are_found_by_all_that_is_known() {
    let t = transport();
    let mgr = &t.session_mgr;
    assert_eq!(mgr.get(7, peer(1), None, true), Some(1));
    assert_eq!(mgr.get(7, peer(1), Some(42), true), Some(1));
    assert_eq!(mgr.get(7, peer(1), Some(43), true), None);
    assert_eq!(mgr.get(6, peer(1), Some(43), true), Some(0));
    assert_eq!(mgr.get(7, peer(2), None, true), None);
    assert_eq!(mgr.get(7, peer(1), None, false), None);
    assert_eq!(mgr.get(8, peer(1), None, true), None);
}

#[test]
fn all_sessions_can_be_changed() {
    let mut t = transport();
    let left = exchange(4).with_session_mgr_mut(&mut t, |mgr| {
        mgr.sessions.remove(0);
        assert!(mgr.mut_by_index(1).is_none());
        mgr.mut_by_index(0).unwrap().local_sess_id = 9;
        Ok(mgr.sessions.len())
    });
    assert_eq!(left, Ok(1));
    assert_eq!(t.session_mgr.sessions, vec![session(9, Some(42))]);
}
