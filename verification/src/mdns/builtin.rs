//! The backend that announces services and answers queries itself.
use crate::error::{Error, ErrorCode};
use crate::mdns::service::{Host, Service, ServiceMode};
use crate::mdns::table::{
    name_as_str, name_from, table_as_slice, table_new, table_push, table_retain_others,
};
use crate::notification::Notification;
use crate::transport::network::{Address, IpAddr, Ipv4Addr, Ipv6Addr, SocketAddr};
use crate::transport::pipe::{PipeData, PipeView};
use vstd::prelude::*;

verus! {

/// The services that are advertised, on which host and for which device.
///
/// `D` holds the details of the device. They are handed on to whatever describes a
/// service, and not read here.
pub struct Mdns<'a, D> {
    host: Host<'a>,
    interface: u32,
    dev_det: &'a D,
    matter_port: u16,
    services: heapless::Vec<(heapless::String<40>, ServiceMode), 4>,
    notification: Notification,
}

/// What stays as it is while services come and go.
pub struct Config<'a, D> {
    pub host: Host<'a>,
    /// The network interface that is used for IPv6.
    pub interface: u32,
    pub dev_det: &'a D,
    /// The port that Matter listens on.
    pub matter_port: u16,
}

/// Whether one step of a visit came out as `outcome`: `resolve` described the service
/// `entry`, and `callback`, called once with the description, took the visit from the
/// state `before` to the state `after`. Where `resolve` fails `callback` is not called,
/// and the state stays.
pub open spec fn stepped<D, R, S, F>(
    resolve: R,
    callback: F,
    config: Config<'_, D>,
    entry: (Seq<char>, ServiceMode),
    before: S,
    after: S,
    outcome: Result<(), Error>,
) -> bool where
    R: Fn(&ServiceMode, &D, u16, &str) -> Result<Service, Error>,
    F: Fn(S, &Service) -> (S, Result<(), Error>),
 {
    exists|name: &str, resolved: Result<Service, Error>|
        {
            &&& name@ == entry.0
            &&& #[trigger] call_ensures(
                resolve,
                (&entry.1, config.dev_det, config.matter_port, name),
                resolved,
            )
            &&& match resolved {
                Ok(service) => call_ensures(callback, (before, &service), (after, outcome)),
                Err(e) => outcome == Err::<(), Error>(e) && after == before,
            }
        }
}

impl<'a, D> Mdns<'a, D> {
    /// The host, the device and the ports.
    pub closed spec fn config(&self) -> Config<'a, D> {
        Config {
            host: self.host,
            interface: self.interface,
            dev_det: self.dev_det,
            matter_port: self.matter_port,
        }
    }

    /// The advertised services, in the order in which they were added: the name and
    /// the mode of each.
    pub closed spec fn services(&self) -> Seq<(Seq<char>, ServiceMode)> {
        crate::mdns::table::entries(self.services)
    }

    /// The wake-up of the task that announces services.
    pub closed spec fn announcement(&self) -> Notification {
        self.notification
    }

    /// No service is advertised yet.
    pub fn new(
        id: u16,
        hostname: &'a str,
        ip: [u8; 4],
        ipv6: Option<[u8; 16]>,
        interface: u32,
        dev_det: &'a D,
        matter_port: u16,
    ) -> (mdns: Mdns<'a, D>)
        ensures
            mdns.config() == (Config {
                host: Host { id, hostname, ip, ipv6 },
                interface,
                dev_det,
                matter_port,
            }),
            mdns.services() == Seq::<(Seq<char>, ServiceMode)>::empty(),
            crate::mdns::laws::proper(mdns.services()),
            !mdns.announcement().pending(),
    {
        Mdns {
            host: Host { id, hostname, ip, ipv6 },
            interface,
            dev_det,
            matter_port,
            services: table_new(),
            notification: Notification::new(),
        }
    }

    /// The host that services are advertised on.
    pub fn host(&self) -> (host: &Host<'a>)
        ensures
            *host == self.config().host,
    {
        &self.host
    }

    /// The wake-up of the task that announces services, for that task to wait on.
    pub fn notification(&self) -> (notification: &Notification)
        ensures
            *notification == self.announcement(),
    {
        &self.notification
    }

    /// Advertises `service`, in place of a service of the same name, and wakes the
    /// task that announces services. Fails where the table is full of other services,
    /// and then changes nothing.
    pub fn add(&mut self, service: &str, mode: ServiceMode) -> (result: Result<(), Error>)
        requires
            vstd::utf8::encode_utf8(service@).len() <= crate::mdns::table::MAX_SERVICE_NAME,
        ensures
            final(self).config() == old(self).config(),
            crate::mdns::table::without(old(self).services(), service@).len()
                < crate::mdns::table::MAX_SERVICES ==> {
                &&& result == Ok::<(), Error>(())
                &&& final(self).services() == crate::mdns::table::without(
                    old(self).services(),
                    service@,
                ).push((service@, mode))
                &&& final(self).announcement().pending()
            },
            crate::mdns::table::without(old(self).services(), service@).len()
                >= crate::mdns::table::MAX_SERVICES ==> {
                &&& result == Err::<(), Error>(Error { code: ErrorCode::NoSpace })
                &&& final(self).services() == crate::mdns::table::without(
                    old(self).services(),
                    service@,
                )
                &&& final(self).announcement() == old(self).announcement()
            },
            crate::mdns::laws::proper(old(self).services()) ==> crate::mdns::laws::proper(
                final(self).services(),
            ),
            crate::mdns::laws::proper(old(self).services()) && result is Err
                ==> final(self).services() == old(self).services(),
    {
        proof {
            if crate::mdns::laws::proper(self.services()) {
                crate::mdns::laws::addition_keeps_the_table_proper(self.services(), service@, mode);
                crate::mdns::laws::refused_service_changes_nothing(self.services(), service@);
            }
        }
        table_retain_others(&mut self.services, service);
        match table_push(&mut self.services, (name_from(service), mode)) {
            Ok(()) => {
                self.notification.signal();
                Ok(())
            },
            Err(_) => Err(Error::new(ErrorCode::NoSpace)),
        }
    }

    /// Stops advertising `service`, if it is advertised.
    pub fn remove(&mut self, service: &str) -> (result: Result<(), Error>)
        ensures
            result == Ok::<(), Error>(()),
            final(self).config() == old(self).config(),
            final(self).services() == crate::mdns::table::without(
                old(self).services(),
                service@,
            ),
            final(self).announcement() == old(self).announcement(),
            crate::mdns::laws::proper(old(self).services()) ==> crate::mdns::laws::proper(
                final(self).services(),
            ),
    {
        proof {
            if crate::mdns::laws::proper(self.services()) {
                crate::mdns::laws::removal_keeps_the_table_proper(self.services(), service@);
            }
        }
        table_retain_others(&mut self.services, service);
        Ok(())
    }

    /// Describes each advertised service with `resolve`, which gets its mode, the
    /// details of the device, the Matter port and its name, and hands the description
    /// to `callback`: each service once, in the order in which the services were added,
    /// up to the first failure of either, which is returned.
    ///
    /// `callback` gets what the visit has come to so far, `state` at first, and gives
    /// back what it comes to then. The last of these is returned.
    pub fn for_each<R, S, F>(&self, resolve: R, state: S, callback: F) -> (end: (
        S,
        Result<(), Error>,
    )) where
        R: Fn(&ServiceMode, &D, u16, &str) -> Result<Service, Error>,
        F: Fn(S, &Service) -> (S, Result<(), Error>),

        requires
            forall|i: int, name: &str|
                0 <= i < self.services().len() && name@ == self.services()[i].0
                    ==> #[trigger] call_requires(
                    resolve,
                    (
                        &self.services()[i].1,
                        self.config().dev_det,
                        self.config().matter_port,
                        name,
                    ),
                ),
            forall|i: int, name: &str, service: Service, before: S|
                0 <= i < self.services().len() && name@ == self.services()[i].0
                    && #[trigger] call_ensures(
                    resolve,
                    (
                        &self.services()[i].1,
                        self.config().dev_det,
                        self.config().matter_port,
                        name,
                    ),
                    Ok::<Service, Error>(service),
                ) ==> #[trigger] call_requires(callback, (before, &service)),
        ensures
            exists|states: Seq<S>|
                {
                    &&& 0 < states.len() <= self.services().len() + 1
                    &&& states[0] == state
                    &&& #[trigger] states.last() == end.0
                    &&& end.1 is Ok ==> states.len() == self.services().len() + 1
                    &&& end.1 is Err ==> states.len() > 1
                    &&& forall|i: int|
                        0 <= i < states.len() - 1 ==> stepped(
                            resolve,
                            callback,
                            self.config(),
                            #[trigger] self.services()[i],
                            states[i],
                            states[i + 1],
                            if i == states.len() - 2 {
                                end.1
                            } else {
                                Ok(())
                            },
                        )
                },
    {
        let items = table_as_slice(&self.services);
        let mut current = state;
        let ghost mut states = seq![state];
        for i in 0..items.len()
            invariant
                items@.len() == self.services().len(),
                forall|j: int|
                    0 <= j < items@.len() ==> #[trigger] self.services()[j] == (
                        crate::mdns::table::chars(items@[j].0),
                        items@[j].1,
                    ),
                forall|j: int, name: &str|
                    0 <= j < self.services().len() && name@ == self.services()[j].0
                        ==> #[trigger] call_requires(
                        resolve,
                        (
                            &self.services()[j].1,
                            self.config().dev_det,
                            self.config().matter_port,
                            name,
                        ),
                    ),
                forall|j: int, name: &str, service: Service, before: S|
                    0 <= j < self.services().len() && name@ == self.services()[j].0
                        && #[trigger] call_ensures(
                        resolve,
                        (
                            &self.services()[j].1,
                            self.config().dev_det,
                            self.config().matter_port,
                            name,
                        ),
                        Ok::<Service, Error>(service),
                    ) ==> #[trigger] call_requires(callback, (before, &service)),
                states.len() == i + 1,
                states[0] == state,
                states.last() == current,
                forall|j: int|
                    0 <= j < i ==> stepped(
                        resolve,
                        callback,
                        self.config(),
                        #[trigger] self.services()[j],
                        states[j],
                        states[j + 1],
                        Ok(()),
                    ),
        {
            let item = &items[i];
            let name = name_as_str(&item.0);
            let ghost entry = self.services()[i as int];
            assert(call_requires(
                resolve,
                (&entry.1, self.config().dev_det, self.config().matter_port, name),
            ));
            let resolved = resolve(&item.1, self.dev_det, self.matter_port, name);
            let (next, outcome) = match resolved {
                Ok(service) => callback(current, &service),
                Err(e) => (current, Err(e)),
            };
            proof {
                states = states.push(next);
            }
            if outcome.is_err() {
                assert(states.last() == next);
                return (next, outcome);
            }
            assert(outcome->Ok_0 == ());
            current = next;
        }
        (current, Ok(()))
    }
}

/// The port of mDNS.
pub const PORT: u16 = 5353;

/// For how many seconds an announcement or a reply is valid.
pub const TTL_SECS: u32 = 60;

/// After how many seconds services are announced again.
pub const BROADCAST_INTERVAL_SECS: u64 = 30;

/// The IPv4 group of mDNS: 224.0.0.251.
pub open spec fn ipv4_group() -> Ipv4Addr {
    Ipv4Addr(224, 0, 0, 251)
}

/// The IPv6 group of mDNS: ff02::fb.
pub open spec fn ipv6_group() -> Ipv6Addr {
    Ipv6Addr(0xff02, 0, 0, 0, 0, 0, 0, 0x00fb)
}

/// How the socket of mDNS is set up.
#[derive(Clone, Copy, Debug, PartialEq, Eq)]
pub struct UdpSetup {
    /// The address that it is bound to.
    pub bind: SocketAddr,
    /// The IPv6 group that it joins, and the interface on which it does.
    pub multicast_v6: (Ipv6Addr, u32),
    /// The IPv4 group that it joins, and the address of the interface on which it
    /// does.
    pub multicast_v4: (Ipv4Addr, Ipv4Addr),
}

/// A group that announcements go to.
#[derive(Clone, Copy, Debug, PartialEq, Eq, Structural)]
pub enum Group {
    V4,
    V6,
}

impl Group {
    /// Where announcements to the group are sent.
    pub open spec fn dest(self) -> SocketAddr {
        match self {
            Group::V4 => SocketAddr { ip: IpAddr::V4(ipv4_group()), port: PORT },
            Group::V6 => SocketAddr { ip: IpAddr::V6(ipv6_group()), port: PORT },
        }
    }

    /// The group that comes next in a round of announcements.
    pub open spec fn successor(self) -> Option<Group> {
        match self {
            Group::V4 => Some(Group::V6),
            Group::V6 => None,
        }
    }

    /// Where announcements to the group are sent.
    pub fn addr(&self) -> (addr: SocketAddr)
        ensures
            addr == self.dest(),
    {
        match self {
            Group::V4 => SocketAddr { ip: IpAddr::V4(Ipv4Addr(224, 0, 0, 251)), port: PORT },
            Group::V6 => SocketAddr {
                ip: IpAddr::V6(Ipv6Addr(0xff02, 0, 0, 0, 0, 0, 0, 0x00fb)),
                port: PORT,
            },
        }
    }

    /// The group that comes next in a round of announcements.
    pub fn next(&self) -> (group: Option<Group>)
        ensures
            group == self.successor(),
    {
        match self {
            Group::V4 => Some(Group::V6),
            Group::V6 => None,
        }
    }
}

/// What the tasks decide that move packets between the socket and the services.
pub struct MdnsRunner {
    /// The network interface that is used for IPv6.
    pub interface: u32,
    /// The IPv4 address of the host.
    pub ip: [u8; 4],
    /// The group that the current round of announcements has come to; none between
    /// two rounds.
    pub round: Option<Group>,
}

impl MdnsRunner {
    /// The tasks that serve `mdns`, before their first round of announcements.
    pub fn new<D>(mdns: &Mdns<'_, D>) -> (runner: MdnsRunner)
        ensures
            runner == (MdnsRunner {
                interface: mdns.config().interface,
                ip: mdns.config().host.ip,
                round: None,
            }),
    {
        MdnsRunner { interface: mdns.interface, ip: mdns.host.ip, round: None }
    }

    /// How the socket is set up: bound to the mDNS port of every address, and member
    /// of both groups.
    pub fn udp_setup(&self) -> (setup: UdpSetup)
        ensures
            setup == (UdpSetup {
                bind: SocketAddr { ip: IpAddr::V6(Ipv6Addr(0, 0, 0, 0, 0, 0, 0, 0)), port: PORT },
                multicast_v6: (ipv6_group(), self.interface),
                multicast_v4: (
                    ipv4_group(),
                    Ipv4Addr(self.ip@[0], self.ip@[1], self.ip@[2], self.ip@[3]),
                ),
            }),
    {
        UdpSetup {
            bind: SocketAddr { ip: IpAddr::V6(Ipv6Addr(0, 0, 0, 0, 0, 0, 0, 0)), port: PORT },
            multicast_v6: (Ipv6Addr(0xff02, 0, 0, 0, 0, 0, 0, 0x00fb), self.interface),
            multicast_v4: (Ipv4Addr(224, 0, 0, 251), Ipv4Addr::from_octets(self.ip)),
        }
    }

    /// The datagram that the sending task has to send: where to, and its bytes.
    pub fn outgoing(tx: &PipeData) -> (datagram: Option<(SocketAddr, &[u8])>)
        requires
            tx@.wf(),
        ensures
            match datagram {
                Some((addr, bytes)) => {
                    &&& tx@.chunk matches Some(chunk)
                    &&& chunk.addr == Address::Udp(addr)
                    &&& bytes@ == tx@.payload()
                },
                None => tx@.is_free(),
            },
    {
        match tx.peek() {
            Some((addr, bytes)) => Some((addr.unwrap_udp(), bytes)),
            None => None,
        }
    }

    /// Frees the pipe of the sending task after its datagram was sent. A failure to
    /// send is returned, and the datagram stays.
    pub fn sent(
        tx: &mut PipeData,
        data_consumed_notification: &mut Notification,
        sent: Result<(), Error>,
    ) -> (result: Result<(), Error>)
        ensures
            result == sent,
            old(tx)@.wf() ==> final(tx)@.wf(),
            sent is Ok ==> {
                &&& final(tx)@ == old(tx)@.consumed()
                &&& final(data_consumed_notification).pending()
            },
            sent is Err ==> {
                &&& final(tx)@ == old(tx)@
                &&& *final(data_consumed_notification) == *old(data_consumed_notification)
            },
    {
        if sent.is_ok() {
            tx.consume(data_consumed_notification);
        }
        sent
    }

    /// Whether the receiving task may receive into its pipe.
    pub fn can_receive(rx: &PipeData) -> (free: bool)
        ensures
            free == rx@.is_free(),
    {
        rx.chunk.is_none()
    }

    /// Fills the pipe of the receiving task with the datagram that was received into
    /// its buffer: its length, and whom it is from. A failure to receive is returned,
    /// and the pipe stays free.
    pub fn received(
        rx: &mut PipeData,
        data_supplied_notification: &mut Notification,
        received: Result<(usize, SocketAddr), Error>,
    ) -> (result: Result<(), Error>)
        requires
            old(rx)@.is_free(),
            received matches Ok((len, _)) ==> len <= old(rx)@.buf.len(),
        ensures
            final(rx)@.wf(),
            match received {
                Ok((len, addr)) => {
                    &&& result == Ok::<(), Error>(())
                    &&& final(rx)@ == PipeView::filled(old(rx)@.buf, len, Address::Udp(addr))
                    &&& final(data_supplied_notification).pending()
                },
                Err(e) => {
                    &&& result == Err::<(), Error>(e)
                    &&& final(rx)@ == old(rx)@
                    &&& *final(data_supplied_notification) == *old(data_supplied_notification)
                },
            },
    {
        match received {
            Ok((len, addr)) => {
                rx.supply(data_supplied_notification, len, Address::Udp(addr));
                Ok(())
            },
            Err(e) => Err(e),
        }
    }

    /// Starts a round of announcements: to the IPv4 group, then to the IPv6 group.
    pub fn start_round(&mut self)
        ensures
            *final(self) == (MdnsRunner { round: Some(Group::V4), ..*old(self) }),
    {
        self.round = Some(Group::V4);
    }

    /// Announces the services to the group that the round has come to: puts what
    /// `encode` writes into the pipe of the sending task, unless it writes nothing,
    /// and moves the round on.
    ///
    /// Returns whether the round moved on: it does not while the pipe holds another
    /// packet. A failure of `encode` is returned.
    pub fn broadcast<F>(
        &mut self,
        tx: &mut PipeData,
        data_supplied_notification: &mut Notification,
        encode: F,
    ) -> (announced: Result<bool, Error>) where F: FnOnce(&mut [u8], u32) -> Result<usize, Error>
        requires
            old(self).round is Some,
            old(tx)@.is_free() ==> forall|buf: &mut [u8]|
                buf@ == old(tx)@.buf ==> call_requires(encode, (buf, TTL_SECS)),
            old(tx)@.is_free() ==> forall|buf: &mut [u8], len: usize|
                buf@ == old(tx)@.buf && #[trigger] call_ensures(
                    encode,
                    (buf, TTL_SECS),
                    Ok::<usize, Error>(len),
                ) ==> len <= final(buf)@.len(),
        ensures
            old(tx)@.wf() ==> final(tx)@.wf(),
            !old(tx)@.is_free() ==> {
                &&& announced == Ok::<bool, Error>(false)
                &&& *final(self) == *old(self)
                &&& final(tx)@ == old(tx)@
                &&& *final(data_supplied_notification) == *old(data_supplied_notification)
            },
            old(tx)@.is_free() ==> exists|buf: &mut [u8], encoded: Result<usize, Error>|
                {
                    &&& buf@ == old(tx)@.buf
                    &&& #[trigger] call_ensures(encode, (buf, TTL_SECS), encoded)
                    &&& final(tx)@ == PipeView::offered(
                        final(buf)@,
                        encoded,
                        Address::Udp(old(self).round->0.dest()),
                    )
                    &&& if final(tx)@.is_free() {
                        *final(data_supplied_notification) == *old(data_supplied_notification)
                    } else {
                        final(data_supplied_notification).pending()
                    }
                    &&& match encoded {
                        Ok(_) => {
                            &&& announced == Ok::<bool, Error>(true)
                            &&& *final(self) == (MdnsRunner {
                                round: old(self).round->0.successor(),
                                ..*old(self)
                            })
                        },
                        Err(e) => {
                            &&& announced == Err::<bool, Error>(e)
                            &&& *final(self) == *old(self)
                        },
                    }
                },
    {
        if tx.chunk.is_some() {
            return Ok(false);
        }
        let group = self.round.unwrap();
        let encoded = encode(tx.buf.as_mut_slice(), TTL_SECS);
        match tx.offer(data_supplied_notification, encoded, Address::Udp(group.addr())) {
            Ok(()) => {
                self.round = group.next();
                Ok(true)
            },
            Err(e) => Err(e),
        }
    }

    /// Answers the query that waits in the pipe of the receiving task: puts what
    /// `encode` makes of it into the pipe of the sending task, unless it makes nothing
    /// of it, for the peer that sent the query, and frees the pipe of the receiving
    /// task.
    ///
    /// Returns whether there is nothing left to answer: a query stays while the pipe
    /// of the sending task holds another packet. A failure of `encode` is returned, and
    /// the query stays.
    pub fn respond<F>(
        rx: &mut PipeData,
        rx_consumed_notification: &mut Notification,
        tx: &mut PipeData,
        tx_supplied_notification: &mut Notification,
        encode: F,
    ) -> (answered: Result<bool, Error>) where
        F: FnOnce(&[u8], &mut [u8], u32) -> Result<usize, Error>,

        requires
            old(rx)@.wf(),
            !old(rx)@.is_free() && old(tx)@.is_free() ==> forall|query: &[u8], buf: &mut [u8]|
                query@ == old(rx)@.payload() && buf@ == old(tx)@.buf ==> call_requires(
                    encode,
                    (query, buf, TTL_SECS),
                ),
            !old(rx)@.is_free() && old(tx)@.is_free() ==> forall|
                query: &[u8],
                buf: &mut [u8],
                len: usize,
            |
                query@ == old(rx)@.payload() && buf@ == old(tx)@.buf && #[trigger] call_ensures(
                    encode,
                    (query, buf, TTL_SECS),
                    Ok::<usize, Error>(len),
                ) ==> len <= final(buf)@.len(),
        ensures
            final(rx)@.wf(),
            old(tx)@.wf() ==> final(tx)@.wf(),
            old(rx)@.is_free() || !old(tx)@.is_free() ==> {
                &&& answered == Ok::<bool, Error>(old(rx)@.is_free())
                &&& final(rx)@ == old(rx)@
                &&& *final(rx_consumed_notification) == *old(rx_consumed_notification)
                &&& final(tx)@ == old(tx)@
                &&& *final(tx_supplied_notification) == *old(tx_supplied_notification)
            },
            !old(rx)@.is_free() && old(tx)@.is_free() ==> exists|
                query: &[u8],
                buf: &mut [u8],
                encoded: Result<usize, Error>,
            |
                {
                    &&& query@ == old(rx)@.payload()
                    &&& buf@ == old(tx)@.buf
                    &&& #[trigger] call_ensures(encode, (query, buf, TTL_SECS), encoded)
                    &&& final(tx)@ == PipeView::offered(
                        final(buf)@,
                        encoded,
                        old(rx)@.chunk->0.addr,
                    )
                    &&& if final(tx)@.is_free() {
                        *final(tx_supplied_notification) == *old(tx_supplied_notification)
                    } else {
                        final(tx_supplied_notification).pending()
                    }
                    &&& match encoded {
                        Ok(_) => {
                            &&& answered == Ok::<bool, Error>(true)
                            &&& final(rx)@ == old(rx)@.consumed()
                            &&& final(rx_consumed_notification).pending()
                        },
                        Err(e) => {
                            &&& answered == Err::<bool, Error>(e)
                            &&& final(rx)@ == old(rx)@
                            &&& *final(rx_consumed_notification) == *old(rx_consumed_notification)
                        },
                    }
                },
    {
        let result = match rx.peek() {
            Some((addr, query)) => {
                if tx.chunk.is_some() {
                    return Ok(false);
                }
                let encoded = encode(query, tx.buf.as_mut_slice(), TTL_SECS);
                tx.offer(tx_supplied_notification, encoded, addr)
            },
            None => {
                return Ok(true);
            },
        };
        match result {
            Ok(()) => {
                rx.consume(rx_consumed_notification);
                Ok(true)
            },
            Err(e) => Err(e),
        }
    }
}

} // verus!
