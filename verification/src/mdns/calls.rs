//! What the calls do to the advertised services and to the pipes, told by the values
//! that go in and come out.
use crate::error::{Error, ErrorCode};
use crate::mdns::astro::{Mdns as DaemonMdns, Registration};
use crate::mdns::builtin::{Group, Mdns, MdnsRunner, UdpSetup};
use crate::mdns::service::{Host, Service, ServiceMode};
use crate::notification::Notification;
use crate::transport::network::{Address, IpAddr, Ipv4Addr, Ipv6Addr, SocketAddr};
use crate::transport::pipe::{Chunk, PipeData};
use vstd::prelude::*;

verus! {

/// What a table of services is made with is what it tells of its host, and nothing is
/// advertised on it yet.
pub proof fn new_table_is_empty<'a, D>(
    id: u16,
    hostname: &'a str,
    ip: [u8; 4],
    ipv6: Option<[u8; 16]>,
    interface: u32,
    dev_det: &'a D,
    matter_port: u16,
    mdns: Mdns<'a, D>,
    host: &Host<'a>,
    notification: &Notification,
)
    requires
        call_ensures(
            Mdns::<'a, D>::new,
            (id, hostname, ip, ipv6, interface, dev_det, matter_port),
            mdns,
        ),
        call_ensures(Mdns::<'a, D>::host, (&mdns,), host),
        call_ensures(Mdns::<'a, D>::notification, (&mdns,), notification),
    ensures
        mdns.services().len() == 0,
        host.id == id,
        host.hostname == hostname,
        host.ip == ip,
        host.ipv6 == ipv6,
        mdns.config().host == *host,
        mdns.config().interface == interface,
        mdns.config().dev_det == dev_det,
        mdns.config().matter_port == matter_port,
        mdns.announcement() == *notification,
        crate::notification::slot(*notification).len() == 0,
{
}

/// A table of services tells its host and hands out its wake-up, whatever is advertised.
pub proof fn table_tells_its_host<'a, D>(
    mdns: &Mdns<'a, D>,
    host: &Host<'a>,
    notification: &Notification,
)
    requires
        call_ensures(Mdns::<'a, D>::host, (mdns,), host),
        call_ensures(Mdns::<'a, D>::notification, (mdns,), notification),
    ensures
        *host == mdns.config().host,
        *notification == mdns.announcement(),
{
}

/// A service can be added under every name of up to forty bytes, and removed under any.
pub proof fn names_of_forty_bytes_fit<D>(mdns: &mut Mdns<'_, D>, service: &str, mode: ServiceMode)
    ensures
        vstd::utf8::encode_utf8(service@).len() <= 40 ==> call_requires(
            Mdns::<'_, D>::add,
            (mdns, service, mode),
        ),
        call_requires(Mdns::<'_, D>::remove, (mdns, service)),
{
}

/// Adding a service succeeds exactly if fewer than four others are advertised. Then it
/// stands behind these, with its mode, and the announcing task is woken; otherwise only
/// the others are left, and no one is woken. The host, the device and the ports stay.
pub proof fn adding_appends_to_the_others<D>(
    mdns: &mut Mdns<'_, D>,
    service: &str,
    mode: ServiceMode,
    result: Result<(), Error>,
)
    requires
        call_ensures(Mdns::<'_, D>::add, (mdns, service, mode), result),
    ensures
        ({
            let others = old(mdns).services().filter(
                |entry: (Seq<char>, ServiceMode)| entry.0 != service@,
            );
            &&& result is Ok <==> others.len() < 4
            &&& result is Ok ==> {
                &&& final(mdns).services() == others.push((service@, mode))
                &&& crate::notification::slot(final(mdns).announcement()).len() > 0
            }
            &&& result is Err ==> {
                &&& result == Err::<(), Error>(Error { code: ErrorCode::NoSpace })
                &&& final(mdns).services() == others
                &&& final(mdns).announcement() == old(mdns).announcement()
            }
        }),
        final(mdns).config() == old(mdns).config(),
{
}

/// After a service was added, the table holds it once, as the last one, and besides it
/// exactly those from before that have another name. It is refused only where four
/// services of other names are advertised already; then nothing changes.
pub proof fn adding_keeps_the_others<D>(
    mdns: &mut Mdns<'_, D>,
    service: &str,
    mode: ServiceMode,
    result: Result<(), Error>,
    other: (Seq<char>, ServiceMode),
)
    requires
        call_ensures(Mdns::<'_, D>::add, (mdns, service, mode), result),
    ensures
        result is Ok ==> {
            &&& final(mdns).services().len() > 0
            &&& final(mdns).services().last() == (service@, mode)
            &&& forall|i: int|
                0 <= i < final(mdns).services().len() - 1 ==> (#[trigger] final(mdns).services()[i]).0 != service@
        },
        other.0 != service@ ==> (final(mdns).services().contains(other) <==> old(mdns).services().contains(other)),
        old(mdns).services().len() < 4 ==> result is Ok,
        old(mdns).services().len() <= 4 && (exists|i: int|
            0 <= i < old(mdns).services().len() && (#[trigger] old(mdns).services()[i]).0
                == service@) ==> result is Ok,
        old(mdns).services().len() >= 4 && (forall|i: int|
            0 <= i < old(mdns).services().len() ==> (#[trigger] old(mdns).services()[i]).0
                != service@) ==> result is Err && final(mdns).services() == old(mdns).services(),
{
    let before = old(mdns).services();
    let rest = crate::mdns::table::without(before, service@);
    crate::mdns::laws::lemma_without(before, service@);
    crate::mdns::laws::removed_service_is_not_advertised(before, service@, other);
    crate::mdns::laws::added_service_is_advertised(before, service@, mode, other);
    assert forall|i: int| 0 <= i < rest.len() implies (#[trigger] rest[i]).0 != service@ by {
        assert(rest.contains(rest[i]));
    }
}

/// Removing a service leaves exactly those of another name, as they were and in their
/// order, and succeeds whether it was advertised or not. No one is woken. The host, the
/// device and the ports stay.
pub proof fn removing_leaves_the_others<D>(
    mdns: &mut Mdns<'_, D>,
    service: &str,
    result: Result<(), Error>,
    entry: (Seq<char>, ServiceMode),
)
    requires
        call_ensures(Mdns::<'_, D>::remove, (mdns, service), result),
    ensures
        result is Ok,
        final(mdns).config() == old(mdns).config(),
        final(mdns).announcement() == old(mdns).announcement(),
        final(mdns).services() == old(mdns).services().filter(
            |entry: (Seq<char>, ServiceMode)| entry.0 != service@,
        ),
        final(mdns).services().contains(entry) <==> old(mdns).services().contains(entry) && entry.0
            != service@,
{
    crate::mdns::laws::lemma_without(old(mdns).services(), service@);
}

/// A visit goes through the advertised services in their order. For each service that it
/// comes to, `resolve` was asked for a description with the mode, the device, the port
/// and the name of that service, and `callback` was called with what `resolve` gave, in
/// the state that the visit had come to. A visit that succeeds has done so for every
/// service; one that fails did so up to the service at which `resolve` or `callback`
/// failed, with that error.
pub proof fn visit_calls_back_for_every_service<D, R, S, F>(
    mdns: &Mdns<'_, D>,
    resolve: R,
    state: S,
    callback: F,
    end: (S, Result<(), Error>),
) where
    R: Fn(&ServiceMode, &D, u16, &str) -> Result<Service, Error>,
    F: Fn(S, &Service) -> (S, Result<(), Error>),

    requires
        call_ensures(
            Mdns::<'_, D>::for_each::<R, S, F>,
            (mdns, resolve, state, callback),
            end,
        ),
    ensures
        exists|states: Seq<S>, names: Seq<&str>, resolved: Seq<Result<Service, Error>>|
            {
                &&& #[trigger] names.len() == #[trigger] resolved.len()
                &&& states.len() == resolved.len() + 1
                &&& states[0] == state
                &&& #[trigger] states.last() == end.0
                &&& resolved.len() <= mdns.services().len()
                &&& end.1 is Ok ==> resolved.len() == mdns.services().len()
                &&& end.1 is Err ==> resolved.len() > 0
                &&& forall|i: int|
                    0 <= i < resolved.len() ==> {
                        &&& names[i]@ == mdns.services()[i].0
                        &&& call_ensures(
                            resolve,
                            (
                                &mdns.services()[i].1,
                                mdns.config().dev_det,
                                mdns.config().matter_port,
                                names[i],
                            ),
                            #[trigger] resolved[i],
                        )
                        &&& i < resolved.len() - 1 || end.1 is Ok ==> {
                            &&& resolved[i] is Ok
                            &&& call_ensures(
                                callback,
                                (states[i], &resolved[i]->Ok_0),
                                (states[i + 1], Ok::<(), Error>(())),
                            )
                        }
                        &&& i == resolved.len() - 1 && resolved[i] is Ok ==> call_ensures(
                            callback,
                            (states[i], &resolved[i]->Ok_0),
                            end,
                        )
                        &&& i == resolved.len() - 1 && resolved[i] is Err ==> end == (
                            states[i],
                            Err::<(), Error>(resolved[i]->Err_0),
                        )
                    }
            },
{
    let services = mdns.services();
    let config = mdns.config();
    let states = choose|states: Seq<S>|
        {
            &&& 0 < states.len() <= services.len() + 1
            &&& states[0] == state
            &&& #[trigger] states.last() == end.0
            &&& end.1 is Ok ==> states.len() == services.len() + 1
            &&& end.1 is Err ==> states.len() > 1
            &&& forall|i: int|
                0 <= i < states.len() - 1 ==> crate::mdns::builtin::stepped(
                    resolve,
                    callback,
                    config,
                    #[trigger] services[i],
                    states[i],
                    states[i + 1],
                    if i == states.len() - 2 {
                        end.1
                    } else {
                        Ok(())
                    },
                )
        };
    let count = (states.len() - 1) as nat;
    let outcome = |i: int|
        if i == states.len() - 2 {
            end.1
        } else {
            Ok::<(), Error>(())
        };
    let step = |i: int|
        choose|name: &str, resolved: Result<Service, Error>|
            {
                &&& name@ == services[i].0
                &&& #[trigger] call_ensures(
                    resolve,
                    (&services[i].1, config.dev_det, config.matter_port, name),
                    resolved,
                )
                &&& match resolved {
                    Ok(service) => call_ensures(
                        callback,
                        (states[i], &service),
                        (states[i + 1], outcome(i)),
                    ),
                    Err(e) => outcome(i) == Err::<(), Error>(e) && states[i + 1] == states[i],
                }
            };
    let names = Seq::new(count, |i: int| step(i).0);
    let resolved = Seq::new(count, |i: int| step(i).1);
    if end.1 is Ok {
        assert(end.1->Ok_0 == ());
    }
    assert forall|i: int| 0 <= i < resolved.len() implies {
        &&& names[i]@ == services[i].0
        &&& call_ensures(
            resolve,
            (&services[i].1, config.dev_det, config.matter_port, names[i]),
            #[trigger] resolved[i],
        )
        &&& match resolved[i] {
            Ok(service) => call_ensures(
                callback,
                (states[i], &service),
                (states[i + 1], outcome(i)),
            ),
            Err(e) => outcome(i) == Err::<(), Error>(e) && states[i + 1] == states[i],
        }
    } by {
        assert(crate::mdns::builtin::stepped(
            resolve,
            callback,
            config,
            services[i],
            states[i],
            states[i + 1],
            outcome(i),
        ));
    }
    assert(names.len() == resolved.len());
    assert(states.last() == end.0);
    assert(end == (states[states.len() - 1], end.1));
}

/// Announcements go to 224.0.0.251 and then to ff02::fb, each at port 5353.
pub proof fn groups_are_where_they_belong(group: Group, addr: SocketAddr, next: Option<Group>)
    requires
        call_ensures(Group::addr, (&group,), addr),
        call_ensures(Group::next, (&group,), next),
    ensures
        addr.port == 5353,
        group == Group::V4 ==> {
            &&& addr.ip == IpAddr::V4(Ipv4Addr(224, 0, 0, 251))
            &&& next == Some(Group::V6)
        },
        group == Group::V6 ==> {
            &&& addr.ip == IpAddr::V6(Ipv6Addr(0xff02, 0, 0, 0, 0, 0, 0, 0xfb))
            &&& next is None
        },
{
}

/// The socket is bound to port 5353 of every address. It joins ff02::fb on the network
/// interface and 224.0.0.251 on the IPv4 address that the table of services was made
/// with.
pub proof fn socket_is_set_up_for_the_host<D>(
    mdns: Mdns<'_, D>,
    runner: MdnsRunner,
    setup: UdpSetup,
)
    requires
        call_ensures(MdnsRunner::new::<D>, (&mdns,), runner),
        call_ensures(MdnsRunner::udp_setup, (&runner,), setup),
    ensures
        runner.round is None,
        setup.bind.ip == IpAddr::V6(Ipv6Addr(0, 0, 0, 0, 0, 0, 0, 0)),
        setup.bind.port == 5353,
        setup.multicast_v6 == (
            Ipv6Addr(0xff02, 0, 0, 0, 0, 0, 0, 0xfb),
            mdns.config().interface,
        ),
        setup.multicast_v4.0 == Ipv4Addr(224, 0, 0, 251),
        setup.multicast_v4.1 == Ipv4Addr(
            mdns.config().host.ip@[0],
            mdns.config().host.ip@[1],
            mdns.config().host.ip@[2],
            mdns.config().host.ip@[3],
        ),
{
}

/// What the sending task sends is what waits in its pipe: to the peer of the packet, and
/// each of its bytes. With nothing in the pipe there is nothing to send.
pub proof fn waiting_packet_is_sent(
    tx: &PipeData,
    datagram: Option<(SocketAddr, &[u8])>,
    chunk: Chunk,
    k: int,
)
    requires
        call_ensures(MdnsRunner::outgoing, (tx,), datagram),
        chunk.start <= chunk.end <= tx.buf@.len(),
    ensures
        tx.chunk is None ==> datagram is None,
        tx.chunk == Some(chunk) ==> {
            &&& datagram matches Some((addr, bytes))
            &&& Address::Udp(addr) == chunk.addr
            &&& bytes@.len() == chunk.end - chunk.start
            &&& 0 <= k < chunk.end - chunk.start ==> bytes@[k] == tx.buf@[chunk.start + k]
        },
{
    assert(tx@.chunk == tx.chunk && tx@.buf == tx.buf@);
}

/// A datagram that was sent leaves the pipe, and the wake-up is given. One that could not
/// be sent stays, no wake-up is given, and the failure is returned.
pub proof fn sent_packet_leaves_the_pipe(
    tx: &mut PipeData,
    notification: &mut Notification,
    sent: Result<(), Error>,
    result: Result<(), Error>,
)
    requires
        call_ensures(MdnsRunner::sent, (tx, notification, sent), result),
    ensures
        final(tx).buf@ == old(tx).buf@,
        sent is Ok ==> {
            &&& result is Ok
            &&& final(tx).chunk is None
            &&& crate::notification::slot(*final(notification)).len() > 0
        },
        sent matches Err(e) ==> {
            &&& result == Err::<(), Error>(e)
            &&& final(tx).chunk == old(tx).chunk
            &&& *final(notification) == *old(notification)
        },
{
    assert(tx@.chunk == tx.chunk && tx@.buf == tx.buf@);
    assert(final(tx)@.chunk == final(tx).chunk && final(tx)@.buf == final(tx).buf@);
}

/// The receiving task may receive exactly while its pipe holds nothing. What it received
/// then lies at the start of the buffer, with whom it is from, and the wake-up is given.
/// A failure is returned, and leaves the pipe and the wake-up as they are.
pub proof fn received_packet_waits(
    rx: &mut PipeData,
    free: bool,
    notification: &mut Notification,
    received: Result<(usize, SocketAddr), Error>,
    result: Result<(), Error>,
)
    requires
        call_ensures(MdnsRunner::can_receive, (&*rx,), free),
        call_ensures(MdnsRunner::received, (rx, notification, received), result),
    ensures
        free <==> old(rx).chunk is None,
        final(rx).buf@ == old(rx).buf@,
        received matches Ok((len, addr)) ==> {
            &&& result is Ok
            &&& final(rx).chunk == Some(Chunk { start: 0, end: len, addr: Address::Udp(addr) })
            &&& crate::notification::slot(*final(notification)).len() > 0
        },
        received matches Err(e) ==> {
            &&& result == Err::<(), Error>(e)
            &&& final(rx).chunk == old(rx).chunk
            &&& *final(notification) == *old(notification)
        },
{
    assert(rx@.chunk == rx.chunk && rx@.buf == rx.buf@);
    assert(final(rx)@.chunk == final(rx).chunk && final(rx)@.buf == final(rx).buf@);
}

/// A round starts with the IPv4 group, whatever came before.
pub proof fn round_starts_with_ipv4(runner: &mut MdnsRunner)
    requires
        call_ensures(MdnsRunner::start_round, (runner,), ()),
    ensures
        final(runner).round == Some(Group::V4),
        final(runner).interface == old(runner).interface,
        final(runner).ip == old(runner).ip,
{
}

/// While a packet waits in the pipe no announcement is made, and nothing changes.
/// Otherwise `encode` is handed the buffer and a validity of 60 seconds. What it wrote
/// goes to the group that the round has come to, unless it wrote nothing, and the round
/// moves on: from the IPv4 group to the IPv6 group, and from there to its end. If it
/// fails the failure is returned, the pipe stays free and the round stays where it is.
pub proof fn announcement_goes_to_the_group<F>(
    runner: &mut MdnsRunner,
    tx: &mut PipeData,
    notification: &mut Notification,
    encode: F,
    announced: Result<bool, Error>,
    group: Group,
) where F: FnOnce(&mut [u8], u32) -> Result<usize, Error>
    requires
        call_ensures(
            MdnsRunner::broadcast::<F>,
            (runner, tx, notification, encode),
            announced,
        ),
        runner.round == Some(group),
    ensures
        final(runner).interface == old(runner).interface,
        final(runner).ip == old(runner).ip,
        old(tx).chunk is Some ==> {
            &&& announced == Ok::<bool, Error>(false)
            &&& final(runner).round == old(runner).round
            &&& final(tx).chunk == old(tx).chunk
            &&& final(tx).buf@ == old(tx).buf@
            &&& *final(notification) == *old(notification)
        },
        old(tx).chunk is None ==> exists|buf: &mut [u8], encoded: Result<usize, Error>|
            {
                &&& buf@ == old(tx).buf@
                &&& #[trigger] call_ensures(encode, (buf, 60u32), encoded)
                &&& final(tx).buf@ == final(buf)@
                &&& match encoded {
                    Ok(len) => {
                        &&& announced == Ok::<bool, Error>(true)
                        &&& final(runner).round == if group == Group::V4 {
                            Some(Group::V6)
                        } else {
                            None
                        }
                        &&& len == 0 ==> {
                            &&& final(tx).chunk is None
                            &&& *final(notification) == *old(notification)
                        }
                        &&& len > 0 ==> {
                            &&& final(tx).chunk == Some(
                                Chunk {
                                    start: 0,
                                    end: len,
                                    addr: Address::Udp(
                                        SocketAddr {
                                            ip: if group == Group::V4 {
                                                IpAddr::V4(Ipv4Addr(224, 0, 0, 251))
                                            } else {
                                                IpAddr::V6(
                                                    Ipv6Addr(0xff02, 0, 0, 0, 0, 0, 0, 0xfb),
                                                )
                                            },
                                            port: 5353,
                                        },
                                    ),
                                },
                            )
                            &&& crate::notification::slot(*final(notification)).len() > 0
                        }
                    },
                    Err(e) => {
                        &&& announced == Err::<bool, Error>(e)
                        &&& final(runner).round == old(runner).round
                        &&& final(tx).chunk is None
                        &&& *final(notification) == *old(notification)
                    },
                }
            },
{
    assert(tx@.chunk == tx.chunk && tx@.buf == tx.buf@);
    assert(final(tx)@.chunk == final(tx).chunk && final(tx)@.buf == final(tx).buf@);
}

/// A query is answered while it waits and the other pipe is free; otherwise nothing
/// changes. `encode` is handed the bytes that were received, the buffer of the other pipe
/// and a validity of 60 seconds. What it wrote goes to whoever sent the query, unless it
/// wrote nothing, and the query is gone. If it fails the failure is returned and the query
/// stays.
pub proof fn answer_goes_to_whoever_asked<F>(
    rx: &mut PipeData,
    consumed: &mut Notification,
    tx: &mut PipeData,
    supplied: &mut Notification,
    encode: F,
    answered: Result<bool, Error>,
) where F: FnOnce(&[u8], &mut [u8], u32) -> Result<usize, Error>
    requires
        call_ensures(
            MdnsRunner::respond::<F>,
            (rx, consumed, tx, supplied, encode),
            answered,
        ),
    ensures
        final(rx).buf@ == old(rx).buf@,
        old(rx).chunk is None || old(tx).chunk is Some ==> {
            &&& answered == Ok::<bool, Error>(old(rx).chunk is None)
            &&& final(rx).chunk == old(rx).chunk
            &&& *final(consumed) == *old(consumed)
            &&& final(tx).chunk == old(tx).chunk
            &&& final(tx).buf@ == old(tx).buf@
            &&& *final(supplied) == *old(supplied)
        },
        old(rx).chunk is Some && old(tx).chunk is None ==> exists|
            query: &[u8],
            buf: &mut [u8],
            encoded: Result<usize, Error>,
        |
            {
                &&& query@ == old(rx).buf@.subrange(
                    old(rx).chunk->0.start as int,
                    old(rx).chunk->0.end as int,
                )
                &&& buf@ == old(tx).buf@
                &&& #[trigger] call_ensures(encode, (query, buf, 60u32), encoded)
                &&& final(tx).buf@ == final(buf)@
                &&& match encoded {
                    Ok(len) => {
                        &&& answered == Ok::<bool, Error>(true)
                        &&& final(rx).chunk is None
                        &&& crate::notification::slot(*final(consumed)).len() > 0
                        &&& len == 0 ==> {
                            &&& final(tx).chunk is None
                            &&& *final(supplied) == *old(supplied)
                        }
                        &&& len > 0 ==> {
                            &&& final(tx).chunk == Some(
                                Chunk { start: 0, end: len, addr: old(rx).chunk->0.addr },
                            )
                            &&& crate::notification::slot(*final(supplied)).len() > 0
                        }
                    },
                    Err(e) => {
                        &&& answered == Err::<bool, Error>(e)
                        &&& final(rx).chunk == old(rx).chunk
                        &&& *final(consumed) == *old(consumed)
                        &&& final(tx).chunk is None
                        &&& *final(supplied) == *old(supplied)
                    },
                }
            },
{
    assert(tx@.chunk == tx.chunk && tx@.buf == tx.buf@);
    assert(rx@.chunk == rx.chunk && rx@.buf == rx.buf@);
    assert(final(tx)@.chunk == final(tx).chunk && final(tx)@.buf == final(tx).buf@);
    assert(final(rx)@.chunk == final(rx).chunk && final(rx)@.buf == final(rx).buf@);
}

/// What is asked of the daemon for a service has its port and its name, its TXT record
/// key by key and value by value, and a type that starts with the type of the service, a
/// dot and its protocol. A service without subtypes has no more than that.
pub proof fn registration_is_made_of_the_service(
    service: Service,
    registration: Registration,
    k: int,
)
    requires
        call_ensures(Registration::new, (&service,), registration),
    ensures
        registration.port == service.port,
        registration.name@ == service.name@,
        registration.txt_kvs@.len() == service.txt_kvs@.len(),
        0 <= k < service.txt_kvs@.len() ==> {
            &&& registration.txt_kvs@[k].0@ == service.txt_kvs@[k].0@
            &&& registration.txt_kvs@[k].1@ == service.txt_kvs@[k].1@
        },
        registration.service_type@.take(
            (service.service@.len() + 1 + service.protocol@.len()) as int,
        ) == service.service@ + seq!['.'] + service.protocol@,
        service.service_subtypes@.len() == 0 ==> registration.service_type@ == service.service@
            + seq!['.'] + service.protocol@,
{
    crate::mdns::laws::registered_type_starts_with_type_and_protocol(service);
}

/// A service that has one more subtype than another, and the same type and protocol, is
/// asked for with one more subtype: a comma and the subtype, behind the type of the other.
pub proof fn registration_has_each_subtype(
    fewer: Service,
    more: Service,
    subtype: String,
    of_fewer: Registration,
    of_more: Registration,
)
    requires
        call_ensures(Registration::new, (&fewer,), of_fewer),
        call_ensures(Registration::new, (&more,), of_more),
        more.service@ == fewer.service@,
        more.protocol@ == fewer.protocol@,
        more.service_subtypes@ == fewer.service_subtypes@.push(subtype),
    ensures
        of_more.service_type@ == of_fewer.service_type@ + seq![','] + subtype@,
{
    crate::mdns::laws::each_subtype_is_added_behind_a_comma(fewer, more, subtype);
}

/// Nothing is registered at first, however the table is made, and it keeps the device
/// and the port that it was made with.
pub proof fn new_registrations_are_empty<'a, D, S>(
    id: u16,
    hostname: &str,
    ip: [u8; 4],
    ipv6: Option<[u8; 16]>,
    dev_det: &'a D,
    matter_port: u16,
    mdns: DaemonMdns<'a, D, S>,
    native: DaemonMdns<'a, D, S>,
    name: &str,
    registered: bool,
)
    requires
        call_ensures(
            DaemonMdns::<'a, D, S>::new,
            (id, hostname, ip, ipv6, dev_det, matter_port),
            mdns,
        ),
        call_ensures(DaemonMdns::<'a, D, S>::native_new, (dev_det, matter_port), native),
        call_ensures(DaemonMdns::<'a, D, S>::is_registered, (&mdns, name), registered),
    ensures
        !registered,
        forall|key: Seq<char>| !#[trigger] mdns@.contains_key(key),
        mdns.device() == dev_det,
        mdns.port() == matter_port,
        forall|key: Seq<char>| !#[trigger] native@.contains_key(key),
        native.device() == dev_det,
        native.port() == matter_port,
{
}

/// A service is registered exactly if there is a registration under its name.
pub proof fn registered_is_what_has_a_registration<D, S>(
    mdns: &DaemonMdns<'_, D, S>,
    name: &str,
    registered: bool,
)
    requires
        call_ensures(DaemonMdns::<'_, D, S>::is_registered, (mdns, name), registered),
    ensures
        registered <==> mdns@.dom().contains(name@),
{
}

/// Removing a service ends its registration and no other one, and succeeds whether there
/// was one or not.
pub proof fn removing_ends_one_registration<D, S>(
    mdns: &mut DaemonMdns<'_, D, S>,
    name: &str,
    result: Result<(), Error>,
    other: Seq<char>,
)
    requires
        call_ensures(DaemonMdns::<'_, D, S>::remove, (mdns, name), result),
    ensures
        result is Ok,
        final(mdns).device() == old(mdns).device(),
        final(mdns).port() == old(mdns).port(),
        !final(mdns)@.contains_key(name@),
        other != name@ ==> {
            &&& final(mdns)@.contains_key(other) <==> old(mdns)@.contains_key(other)
            &&& old(mdns)@.contains_key(other) ==> final(mdns)@[other] == old(mdns)@[other]
        },
{
}

/// Beginning to register a service ends the registration under its name and no other
/// one. What is asked for is made of the description that `resolve` gave for the mode,
/// the device, the port and the name; its failure is returned.
pub proof fn beginning_asks_for_what_is_described<D, S, R>(
    mdns: &mut DaemonMdns<'_, D, S>,
    name: &str,
    mode: ServiceMode,
    resolve: R,
    asked: Result<Registration, Error>,
    other: Seq<char>,
) where R: FnOnce(&ServiceMode, &D, u16, &str) -> Result<Service, Error>
    requires
        call_ensures(
            DaemonMdns::<'_, D, S>::begin::<R>,
            (mdns, name, mode, resolve),
            asked,
        ),
    ensures
        final(mdns).device() == old(mdns).device(),
        final(mdns).port() == old(mdns).port(),
        !final(mdns)@.contains_key(name@),
        other != name@ ==> {
            &&& final(mdns)@.contains_key(other) <==> old(mdns)@.contains_key(other)
            &&& old(mdns)@.contains_key(other) ==> final(mdns)@[other] == old(mdns)@[other]
        },
        asked matches Err(e) ==> call_ensures(
            resolve,
            (&mode, old(mdns).device(), old(mdns).port(), name),
            Err::<Service, Error>(e),
        ),
        asked matches Ok(registration) ==> exists|service: Service|
            {
                &&& #[trigger] call_ensures(
                    resolve,
                    (&mode, old(mdns).device(), old(mdns).port(), name),
                    Ok::<Service, Error>(service),
                )
                &&& registration.is_for(service)
                &&& registration.port == service.port
                &&& registration.name@ == service.name@
                &&& registration.service_type@.take(
                    (service.service@.len() + 1 + service.protocol@.len()) as int,
                ) == service.service@ + seq!['.'] + service.protocol@
            },
{
    let resolved = choose|resolved: Result<Service, Error>|
        {
            &&& #[trigger] call_ensures(
                resolve,
                (&mode, old(mdns).device(), old(mdns).port(), name),
                resolved,
            )
            &&& match resolved {
                Ok(service) => asked matches Ok(registration) && registration.is_for(service),
                Err(e) => asked == Err::<Registration, Error>(e),
            }
        };
    if let Ok(service) = resolved {
        crate::mdns::laws::registered_type_starts_with_type_and_protocol(service);
    }
}

/// Finishing to register a service keeps what the daemon gave, under the name, and every
/// other registration. A refusal is an mDNS error, and changes nothing.
pub proof fn finishing_keeps_what_was_given<D, S, E>(
    mdns: &mut DaemonMdns<'_, D, S>,
    name: String,
    registered: Result<S, E>,
    result: Result<(), Error>,
    other: Seq<char>,
)
    requires
        call_ensures(
            DaemonMdns::<'_, D, S>::finish::<E>,
            (mdns, name, registered),
            result,
        ),
    ensures
        final(mdns).device() == old(mdns).device(),
        final(mdns).port() == old(mdns).port(),
        registered matches Ok(svc) ==> {
            &&& result is Ok
            &&& final(mdns)@.contains_key(name@)
            &&& final(mdns)@[name@] == svc
        },
        registered is Err ==> {
            &&& result == Err::<(), Error>(Error { code: ErrorCode::MdnsError })
            &&& final(mdns)@ == old(mdns)@
        },
        other != name@ ==> {
            &&& final(mdns)@.contains_key(other) <==> old(mdns)@.contains_key(other)
            &&& old(mdns)@.contains_key(other) ==> final(mdns)@[other] == old(mdns)@[other]
        },
{
}

/// Adding a service that succeeds leaves a registration under the name in the
/// description that `resolve` gave: what `register` made of a registration for that
/// description, at a time when the earlier registration under `name` had ended. Adding
/// that fails returns what `resolve` failed with, or an mDNS error where `register` failed;
/// then the registration under `name` has ended. Either way all others stay.
pub proof fn adding_keeps_what_was_registered<'a, D, S, R, G, E>(
    mdns: &mut DaemonMdns<'a, D, S>,
    name: &str,
    mode: ServiceMode,
    resolve: R,
    register: G,
    result: Result<(), Error>,
) where
    R: FnOnce(&ServiceMode, &D, u16, &str) -> Result<Service, Error>,
    G: FnOnce(&DaemonMdns<'a, D, S>, &Registration) -> Result<S, E>,

    requires
        call_ensures(
            DaemonMdns::<'a, D, S>::add::<R, G, E>,
            (mdns, name, mode, resolve, register),
            result,
        ),
    ensures
        final(mdns).device() == old(mdns).device(),
        final(mdns).port() == old(mdns).port(),
        result is Ok ==> exists|
            service: Service,
            left: &DaemonMdns<'a, D, S>,
            registration: Registration,
            svc: S,
        |
            {
                &&& #[trigger] call_ensures(
                    resolve,
                    (&mode, old(mdns).device(), old(mdns).port(), name),
                    Ok::<Service, Error>(service),
                )
                &&& registration.is_for(service)
                &&& left@ == old(mdns)@.remove(name@)
                &&& #[trigger] call_ensures(register, (left, &registration), Ok::<S, E>(svc))
                &&& final(mdns)@ == old(mdns)@.remove(name@).insert(service.name@, svc)
            },
        result matches Err(e) ==> {
            &&& final(mdns)@ == old(mdns)@.remove(name@)
            &&& {
                ||| call_ensures(
                    resolve,
                    (&mode, old(mdns).device(), old(mdns).port(), name),
                    Err::<Service, Error>(e),
                )
                ||| e.code == ErrorCode::MdnsError && exists|
                    service: Service,
                    left: &DaemonMdns<'a, D, S>,
                    registration: Registration,
                    refusal: E,
                |
                    {
                        &&& #[trigger] call_ensures(
                            resolve,
                            (&mode, old(mdns).device(), old(mdns).port(), name),
                            Ok::<Service, Error>(service),
                        )
                        &&& registration.is_for(service)
                        &&& left@ == old(mdns)@.remove(name@)
                        &&& #[trigger] call_ensures(
                            register,
                            (left, &registration),
                            Err::<S, E>(refusal),
                        )
                    }
            }
        },
{
    let arguments = (&mode, old(mdns).device(), old(mdns).port(), name);
    let left_over = old(mdns)@.remove(name@);
    let resolved = choose|resolved: Result<Service, Error>|
        {
            &&& #[trigger] call_ensures(resolve, arguments, resolved)
            &&& match resolved {
                Err(e) => result == Err::<(), Error>(e) && final(mdns)@ == left_over,
                Ok(service) => exists|
                    left: &DaemonMdns<'a, D, S>,
                    registration: Registration,
                    registered: Result<S, E>,
                |
                    {
                        &&& left@ == left_over
                        &&& registration.is_for(service)
                        &&& #[trigger] call_ensures(register, (left, &registration), registered)
                        &&& match registered {
                            Ok(svc) => {
                                &&& result == Ok::<(), Error>(())
                                &&& final(mdns)@ == left_over.insert(service.name@, svc)
                            },
                            Err(_) => {
                                &&& result == Err::<(), Error>(
                                    Error { code: ErrorCode::MdnsError },
                                )
                                &&& final(mdns)@ == left_over
                            },
                        }
                    },
            }
        };
    if let Ok(service) = resolved {
        let (left, registration, registered) = choose|
            left: &DaemonMdns<'a, D, S>,
            registration: Registration,
            registered: Result<S, E>,
        |
            {
                &&& left@ == left_over
                &&& registration.is_for(service)
                &&& #[trigger] call_ensures(register, (left, &registration), registered)
                &&& match registered {
                    Ok(svc) => {
                        &&& result == Ok::<(), Error>(())
                        &&& final(mdns)@ == left_over.insert(service.name@, svc)
                    },
                    Err(_) => {
                        &&& result == Err::<(), Error>(Error { code: ErrorCode::MdnsError })
                        &&& final(mdns)@ == left_over
                    },
                }
            };
        assert(call_ensures(resolve, arguments, Ok::<Service, Error>(service)));
        match registered {
            Ok(svc) => {
                assert(call_ensures(register, (left, &registration), Ok::<S, E>(svc)));
            },
            Err(refusal) => {
                assert(call_ensures(register, (left, &registration), Err::<S, E>(refusal)));
            },
        }
    }
}

} // verus!
