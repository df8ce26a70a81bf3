use matter::error::{Error, ErrorCode};
use matter::mdns::builtin::{
    Group, Mdns, MdnsRunner, BROADCAST_INTERVAL_SECS, PORT, TTL_SECS,
};
use matter::mdns::service::{Service, ServiceMode};
use matter::notification::Notification;
use matter::transport::network::{Address, IpAddr, Ipv4Addr, Ipv6Addr, SocketAddr};
use matter::transport::pipe::{Chunk, PipeData};

const NO_SPACE: Error = Error { code: ErrorCode::NoSpace };
const MDNS_ERROR: Error = Error { code: ErrorCode::MdnsError };

fn mdns(dev_det: &u32) -> Mdns<'_, u32> {
    Mdns::new(3, "host", [10, 0, 0, 7], None, 12, dev_det, 5540)
}

fn resolve(mode: &ServiceMode, dev_det: &u32, port: u16, name: &str) -> Result<Service, Error> {
    Ok(Service {
        name: name.to_string(),
        service: format!("{:?}", mode),
        protocol: dev_det.to_string(),
        port,
        service_subtypes: vec![],
        txt_kvs: vec![],
    })
}

fn names(mdns: &Mdns<'_, u32>) -> Vec<String> {
    let (names, visited) = mdns.for_each(resolve, vec![], |mut names, service: &Service| {
        names.push(format!("{} {}", service.name, service.service));
        (names, Ok(()))
    });
    assert_eq!(visited, Ok(()));
    names
}

fn socket(last: u8) -> SocketAddr {
    SocketAddr { ip: IpAddr::V4(Ipv4Addr(10, 0, 0, last)), port: 5353 }
}

fn given(notification: &Notification) -> bool {
    notification.signal.signaled()
}

#[test]
fn nothing_is_advertised_at_first() {
    let m = mdns(&0);
    assert!(names(&m).is_empty());
    assert!(!given(m.notification()));
    assert_eq!(m.host().id, 3);
    assert_eq!(m.host().hostname, "host");
    assert_eq!(m.host().ip, [10, 0, 0, 7]);
    assert_eq!(m.host().ipv6, None);
}

#[test]
fn services_are_advertised_in_order() {
    let mut m = mdns(&0);
    assert_eq!(m.add("b", ServiceMode::Commissioned), Ok(()));
    assert!(given(m.notification()));
    assert_eq!(m.add("a", ServiceMode::Commissionable(250)), Ok(()));
    assert_eq!(names(&m), vec!["b Commissioned", "a Commissionable(250)"]);
}

#[test]
fn adding_again_replaces() {
    let mut m = mdns(&0);
    m.add("b", ServiceMode::Commissioned).unwrap();
    m.add("a", ServiceMode::Commissioned).unwrap();
    m.add("b", ServiceMode::Commissionable(1)).unwrap();
    assert_eq!(names(&m), vec!["a Commissioned", "b Commissionable(1)"]);
}

#[test]
fn removing_undoes_adding() {
    let mut m = mdns(&0);
    m.add("a", ServiceMode::Commissioned).unwrap();
    m.add("b", ServiceMode::Commissioned).unwrap();
    assert_eq!(m.remove("b"), Ok(()));
    assert_eq!(names(&m), vec!["a Commissioned"]);
    assert_eq!(m.remove("b"), Ok(()));
    assert_eq!(names(&m), vec!["a Commissioned"]);
    assert_eq!(m.remove("a"), Ok(()));
    assert!(names(&m).is_empty());
}

#[test]
fn removing_does_not_announce() {
    let mut m = mdns(&0);
    m.add("a", ServiceMode::Commissioned).unwrap();
    m.notification().signal.reset();
    m.remove("a").unwrap();
    assert!(!given(m.notification()));
}

#[test]
fn full_table_refuses_and_keeps() {
    let mut m = mdns(&0);
    for name in ["a", "b", "c", "d"] {
        assert_eq!(m.add(name, ServiceMode::Commissioned), Ok(()));
    }
    m.notification().signal.reset();
    let before = names(&m);
    assert_eq!(m.add("e", ServiceMode::Commissioned), Err(NO_SPACE));
    assert_eq!(names(&m), before);
    assert!(!given(m.notification()));
    assert_eq!(m.add("b", ServiceMode::Commissionable(9)), Ok(()));
    assert_eq!(
        names(&m),
        vec!["a Commissioned", "c Commissioned", "d Commissioned", "b Commissionable(9)"]
    );
    assert!(given(m.notification()));
}

#[test]
fn names_may_have_forty_bytes() {
    let mut m = mdns(&0);
    let long = "x".repeat(40);
    let accented = "\u{e9}".repeat(20);
    assert_eq!(m.add(&long, ServiceMode::Commissioned), Ok(()));
    assert_eq!(m.add(&accented, ServiceMode::Commissioned), Ok(()));
    assert_eq!(m.add("", ServiceMode::Commissioned), Ok(()));
    assert_eq!(
        names(&m),
        vec![
            format!("{} Commissioned", long),
            format!("{} Commissioned", accented),
            " Commissioned".to_string(),
        ]
    );
    m.remove(&accented).unwrap();
    assert_eq!(names(&m).len(), 2);
}

#[test]
fn description_gets_device_and_port() {
    let mut m = mdns(&77);
    m.add("a", ServiceMode::Commissioned).unwrap();
    let (seen, visited) = m.for_each(resolve, vec![], |mut seen, service: &Service| {
        seen.push((service.protocol.clone(), service.port));
        (seen, Ok(()))
    });
    assert_eq!(visited, Ok(()));
    assert_eq!(seen, vec![("77".to_string(), 5540)]);
}

#[test]
fn each_service_is_visited_once() {
    let mut m = mdns(&0);
    for name in ["c", "a", "d", "b"] {
        m.add(name, ServiceMode::Commissioned).unwrap();
    }
    let (seen, visited) = m.for_each(resolve, vec![], |mut seen, service: &Service| {
        seen.push(service.name.clone());
        (seen, Ok(()))
    });
    assert_eq!(visited, Ok(()));
    assert_eq!(seen, vec!["c", "a", "d", "b"]);
    assert_eq!(names(&m).len(), 4);
}

#[test]
fn without_services_nothing_is_visited() {
    let m = mdns(&0);
    let (calls, visited) = m.for_each(resolve, 0, |calls, _: &Service| (calls + 1, Err(NO_SPACE)));
    assert_eq!((calls, visited), (0, Ok(())));
}

#[test]
fn visiting_stops_at_the_first_failure() {
    let mut m = mdns(&0);
    for name in ["a", "b", "c"] {
        m.add(name, ServiceMode::Commissioned).unwrap();
    }
    let (seen, visited) = m.for_each(resolve, vec![], |mut seen, service: &Service| {
        seen.push(service.name.clone());
        if service.name == "b" {
            (seen, Err(MDNS_ERROR))
        } else {
            (seen, Ok(()))
        }
    });
    assert_eq!(visited, Err(MDNS_ERROR));
    assert_eq!(seen, vec!["a", "b"]);

    let (seen, visited) = m.for_each(
        |mode, dev_det, port, name| {
            if name == "b" {
                Err(NO_SPACE)
            } else {
                resolve(mode, dev_det, port, name)
            }
        },
        vec![],
        |mut seen, service: &Service| {
            seen.push(service.name.clone());
            (seen, Ok(()))
        },
    );
    assert_eq!(visited, Err(NO_SPACE));
    assert_eq!(seen, vec!["a"]);
    assert_eq!(names(&m).len(), 3);
}

#[test]
fn socket_joins_both_groups() {
    let setup = MdnsRunner::new(&mdns(&0)).udp_setup();
    assert_eq!(setup.bind.ip, IpAddr::V6(Ipv6Addr(0, 0, 0, 0, 0, 0, 0, 0)));
    assert_eq!(setup.bind.port, 5353);
    assert_eq!(setup.multicast_v6, (Ipv6Addr(0xff02, 0, 0, 0, 0, 0, 0, 0xfb), 12));
    assert_eq!(setup.multicast_v4, (Ipv4Addr(224, 0, 0, 251), Ipv4Addr(10, 0, 0, 7)));
}

#[test]
fn timing_of_announcements() {
    assert_eq!((PORT, TTL_SECS, BROADCAST_INTERVAL_SECS), (5353, 60, 30));
}

#[test]
fn round_goes_to_both_groups() {
    let mut runner = MdnsRunner::new(&mdns(&0));
    assert_eq!(runner.round, None);
    runner.start_round();
    let mut sent: Vec<SocketAddr> = vec![];
    while runner.round.is_some() {
        let mut tx = PipeData::new(vec![0; 4]);
        let mut supplied = Notification::new();
        let announced = runner.broadcast(&mut tx, &mut supplied, |buf: &mut [u8], ttl| {
            assert_eq!(ttl, 60);
            buf[..3].copy_from_slice(b"abc");
            Ok(3)
        });
        assert_eq!(announced, Ok(true));
        assert!(given(&supplied));
        let (addr, bytes) = MdnsRunner::outgoing(&tx).unwrap();
        assert_eq!(bytes, b"abc");
        sent.push(addr);
    }
    assert_eq!(
        sent,
        vec![
            SocketAddr { ip: IpAddr::V4(Ipv4Addr(224, 0, 0, 251)), port: 5353 },
            SocketAddr { ip: IpAddr::V6(Ipv6Addr(0xff02, 0, 0, 0, 0, 0, 0, 0xfb)), port: 5353 },
        ]
    );
    assert_eq!(Group::V6.next(), None);
}

#[test]
fn announcement_waits_for_a_free_pipe() {
    let mut runner = MdnsRunner::new(&mdns(&0));
    runner.start_round();
    let mut tx = PipeData::new(vec![1, 2]);
    let chunk = Chunk { start: 1, end: 2, addr: Address::Udp(socket(1)) };
    tx.chunk = Some(chunk);
    let mut supplied = Notification::new();
    let announced =
        runner.broadcast(&mut tx, &mut supplied, |_: &mut [u8], _| panic!("the pipe is in use"));
    assert_eq!(announced, Ok(false));
    assert_eq!(runner.round, Some(Group::V4));
    assert_eq!(tx.chunk, Some(chunk));
    assert!(!given(&supplied));
}

#[test]
fn empty_announcement_is_not_sent() {
    let mut runner = MdnsRunner::new(&mdns(&0));
    runner.start_round();
    let mut tx = PipeData::new(vec![0; 2]);
    let mut supplied = Notification::new();
    let announced = runner.broadcast(&mut tx, &mut supplied, |_: &mut [u8], _| Ok(0));
    assert_eq!(announced, Ok(true));
    assert_eq!(runner.round, Some(Group::V6));
    assert_eq!(tx.chunk, None);
    assert!(!given(&supplied));
}

#[test]
fn failed_announcement_ends_the_task() {
    let mut runner = MdnsRunner::new(&mdns(&0));
    runner.start_round();
    let mut tx = PipeData::new(vec![0; 2]);
    let mut supplied = Notification::new();
    let announced = runner.broadcast(&mut tx, &mut supplied, |_: &mut [u8], _| Err(NO_SPACE));
    assert_eq!(announced, Err(NO_SPACE));
    assert_eq!(runner.round, Some(Group::V4));
    assert_eq!(tx.chunk, None);
    assert!(!given(&supplied));
}

#[test]
fn reply_goes_to_whoever_asked() {
    let mut rx = PipeData::new(b"query...".to_vec());
    let mut tx = PipeData::new(vec![0; 8]);
    let mut rx_supplied = Notification::new();
    let mut rx_consumed = Notification::new();
    let mut tx_supplied = Notification::new();
    assert!(MdnsRunner::can_receive(&rx));
    assert_eq!(MdnsRunner::received(&mut rx, &mut rx_supplied, Ok((5, socket(9)))), Ok(()));
    assert!(given(&rx_supplied));
    assert!(!MdnsRunner::can_receive(&rx));
    let answered = MdnsRunner::respond(
        &mut rx,
        &mut rx_consumed,
        &mut tx,
        &mut tx_supplied,
        |query: &[u8], buf: &mut [u8], ttl| {
            assert_eq!(query, b"query");
            assert_eq!(ttl, 60);
            buf[..2].copy_from_slice(b"ok");
            Ok(2)
        },
    );
    assert_eq!(answered, Ok(true));
    assert!(MdnsRunner::can_receive(&rx));
    assert!(given(&rx_consumed));
    assert!(given(&tx_supplied));
    assert_eq!(MdnsRunner::outgoing(&tx), Some((socket(9), &b"ok"[..])));
}

#[test]
fn query_waits_for_a_free_pipe() {
    let mut rx = PipeData::new(vec![1]);
    let mut tx = PipeData::new(vec![0; 2]);
    let chunk = Chunk { start: 0, end: 2, addr: Address::Udp(socket(1)) };
    tx.chunk = Some(chunk);
    let mut consumed = Notification::new();
    let mut supplied = Notification::new();
    MdnsRunner::received(&mut rx, &mut supplied, Ok((1, socket(2)))).unwrap();
    supplied.signal.reset();
    let answered = MdnsRunner::respond(
        &mut rx,
        &mut consumed,
        &mut tx,
        &mut supplied,
        |_: &[u8], _: &mut [u8], _| panic!("the pipe is in use"),
    );
    assert_eq!(answered, Ok(false));
    assert_eq!(tx.chunk, Some(chunk));
    assert!(!MdnsRunner::can_receive(&rx));
    assert!(!given(&consumed) && !given(&supplied));
}

#[test]
fn query_without_a_reply_is_consumed() {
    let mut rx = PipeData::new(vec![]);
    let mut tx = PipeData::new(vec![]);
    let mut consumed = Notification::new();
    let mut supplied = Notification::new();
    MdnsRunner::received(&mut rx, &mut supplied, Ok((0, socket(2)))).unwrap();
    assert_eq!(rx.chunk, Some(Chunk { start: 0, end: 0, addr: Address::Udp(socket(2)) }));
    supplied.signal.reset();
    let answered = MdnsRunner::respond(
        &mut rx,
        &mut consumed,
        &mut tx,
        &mut supplied,
        |query: &[u8], _: &mut [u8], _| {
            assert!(query.is_empty());
            Ok(0)
        },
    );
    assert_eq!(answered, Ok(true));
    assert!(MdnsRunner::can_receive(&rx) && tx.chunk.is_none());
    assert!(given(&consumed) && !given(&supplied));
}

#[test]
fn without_a_query_nothing_is_answered() {
    let mut rx = PipeData::new(vec![1]);
    let mut tx = PipeData::new(vec![1]);
    let mut consumed = Notification::new();
    let mut supplied = Notification::new();
    let answered = MdnsRunner::respond(
        &mut rx,
        &mut consumed,
        &mut tx,
        &mut supplied,
        |_: &[u8], _: &mut [u8], _| panic!("there is no query"),
    );
    assert_eq!(answered, Ok(true));
    assert!(!given(&consumed) && !given(&supplied));
}

#[test]
fn failed_reply_keeps_the_query() {
    let mut rx = PipeData::new(vec![1]);
    let mut tx = PipeData::new(vec![1]);
    let mut consumed = Notification::new();
    let mut supplied = Notification::new();
    MdnsRunner::received(&mut rx, &mut supplied, Ok((1, socket(2)))).unwrap();
    supplied.signal.reset();
    let answered = MdnsRunner::respond(
        &mut rx,
        &mut consumed,
        &mut tx,
        &mut supplied,
        |_: &[u8], _: &mut [u8], _| Err(MDNS_ERROR),
    );
    assert_eq!(answered, Err(MDNS_ERROR));
    assert!(!MdnsRunner::can_receive(&rx) && tx.chunk.is_none());
    assert!(!given(&consumed) && !given(&supplied));
}

#[test]
fn sent_datagram_leaves_the_pipe() {
    let mut tx = PipeData::new(vec![1, 2, 3]);
    let mut consumed = Notification::new();
    assert_eq!(MdnsRunner::outgoing(&tx), None);
    tx.chunk = Some(Chunk { start: 1, end: 3, addr: Address::Udp(socket(4)) });
    assert_eq!(MdnsRunner::outgoing(&tx), Some((socket(4), &[2u8, 3][..])));
    assert_eq!(MdnsRunner::sent(&mut tx, &mut consumed, Err(NO_SPACE)), Err(NO_SPACE));
    assert!(tx.chunk.is_some() && !given(&consumed));
    assert_eq!(MdnsRunner::sent(&mut tx, &mut consumed, Ok(())), Ok(()));
    assert!(tx.chunk.is_none() && given(&consumed));
}

#[test]
fn failed_receipt_leaves_the_pipe_free() {
    let mut rx = PipeData::new(vec![1]);
    let mut supplied = Notification::new();
    assert_eq!(MdnsRunner::received(&mut rx, &mut supplied, Err(NO_SPACE)), Err(NO_SPACE));
    assert!(MdnsRunner::can_receive(&rx) && !given(&supplied));
}
