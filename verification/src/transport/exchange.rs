//! Exchanges: conversations with a peer within a session.
//!
//! An exchange asks the transport for one thing at a time. It may ask while it is
//! active; what it asks for is written into its context, the sending task is woken,
//! and the transport makes it active again and gives its notification when the work
//! is done.
use crate::error::{Error, ErrorCode};
use crate::notification::Notification;
use crate::transport::network::Address;
use crate::transport::packet::Packet;
use crate::transport::session::{Session, SessionMgr};
use crate::transport::shared::{Transport, TransportView};
use vstd::prelude::*;

verus! {

/// How many exchanges a node keeps open at a time.
pub const MAX_EXCHANGES: usize = 8;

/// The side that a node has in an exchange.
#[derive(Clone, Copy, Debug, PartialEq, Eq, Structural)]
pub enum Role {
    /// It opened the exchange.
    Initiator,
    /// Its peer opened the exchange.
    Responder,
}

impl Default for Role {
    fn default() -> (role: Role)
        ensures
            role == Role::Initiator,
    {
        Role::Initiator
    }
}

impl Role {
    /// The role of the other side: a responder faces an initiator, and the other
    /// way round.
    pub fn complementary(is_initiator: bool) -> (role: Role)
        ensures
            role == if is_initiator {
                Role::Responder
            } else {
                Role::Initiator
            },
    {
        if is_initiator {
            Role::Responder
        } else {
            Role::Initiator
        }
    }
}

/// What the reliability layer still has to do on an exchange.
#[derive(Clone, Copy, Debug, PartialEq, Eq, Structural)]
pub struct ReliableMessage {
    /// Whether an acknowledgement is owed or awaited.
    pub outstanding: bool,
}

impl ReliableMessage {
    /// Whether nothing is outstanding.
    pub fn is_empty(&self) -> (empty: bool)
        ensures
            empty == !self.outstanding,
    {
        !self.outstanding
    }
}

/// Stands for a packet buffer that its owner has lent to the transport.
#[derive(Clone, Copy, Debug, PartialEq, Eq, Structural)]
pub struct PacketRef(pub usize);

/// Stands for the notification that the transport gives when it is done.
#[derive(Clone, Copy, Debug, PartialEq, Eq, Structural)]
pub struct NotificationRef(pub usize);

/// What an exchange is doing.
#[derive(Clone, Copy, Debug, PartialEq, Eq, Structural)]
pub enum ExchangeState {
    /// Its owner waits for the packet that opened it, to be put into `rx`.
    Construction { rx: PacketRef, notification: NotificationRef },
    /// It may ask for something.
    Active,
    /// It wants everything acknowledged.
    Acknowledge { notification: NotificationRef },
    /// It wants `tx` sent, and an answer in `rx`.
    ExchangeSend { tx: PacketRef, rx: PacketRef, notification: NotificationRef },
    /// `tx` was sent, and the answer is awaited.
    ExchangeRecv {
        _tx: PacketRef,
        tx_acknowledged: bool,
        rx: PacketRef,
        notification: NotificationRef,
    },
    /// It wants `tx` sent as its last packet.
    Complete { tx: PacketRef, notification: NotificationRef },
    /// The last packet was sent, and its acknowledgement is awaited.
    CompleteAcknowledge { _tx: PacketRef, notification: NotificationRef },
    /// It is over.
    Closed,
}

/// What the transport knows of an exchange.
#[derive(Clone, Copy, Debug, PartialEq, Eq, Structural)]
pub struct ExchangeCtx {
    pub id: ExchangeId,
    pub role: Role,
    pub mrp: ReliableMessage,
    pub state: ExchangeState,
}

/// What identifies an exchange.
#[derive(Clone, Copy, Debug, PartialEq, Eq, Structural)]
pub struct ExchangeId {
    pub id: u16,
    pub session_id: SessionId,
}

impl ExchangeId {
    /// The exchange that a received packet belongs to.
    pub fn load(rx: &Packet) -> (id: ExchangeId)
        ensures
            id == (ExchangeId { id: rx.proto.exch_id, session_id: session_of(*rx) }),
    {
        ExchangeId { id: rx.proto.exch_id, session_id: SessionId::load(rx) }
    }
}

/// What identifies a session.
#[derive(Clone, Copy, Debug, PartialEq, Eq, Structural)]
pub struct SessionId {
    pub id: u16,
    pub peer_addr: Address,
    pub peer_nodeid: Option<u64>,
    pub is_encrypted: bool,
}

/// The session that a received packet belongs to.
pub open spec fn session_of(rx: Packet) -> SessionId {
    SessionId {
        id: rx.plain.sess_id,
        peer_addr: rx.peer,
        peer_nodeid: rx.plain.src_nodeid,
        is_encrypted: rx.plain.encrypted,
    }
}

impl SessionId {
    /// The session that a received packet belongs to.
    pub fn load(rx: &Packet) -> (id: SessionId)
        ensures
            id == session_of(*rx),
    {
        SessionId {
            id: rx.plain.sess_id,
            peer_addr: rx.peer,
            peer_nodeid: rx.plain.get_src_u64(),
            is_encrypted: rx.plain.is_encrypted(),
        }
    }
}

/// An exchange whose first packet has not been handed to its owner yet.
pub struct ExchangeCtr {
    pub exchange: Exchange,
}

impl ExchangeCtr {
    /// What identifies the exchange.
    pub fn id(&self) -> (id: &ExchangeId)
        ensures
            *id == self.exchange.id,
    {
        self.exchange.id()
    }

    /// Asks for the packet that opened the exchange, to be put into `rx`, and wakes
    /// the task that holds it. The exchange can be used once its notification was
    /// given.
    ///
    /// An exchange that is not active is closed.
    pub fn get(
        self,
        transport: &mut Transport,
        construction_notification: &mut Notification,
        rx: PacketRef,
    ) -> (result: Result<Exchange, Error>)
        ensures
            old(transport)@.accepts(self.exchange.id) ==> {
                &&& result == Ok::<Exchange, Error>(self.exchange)
                &&& final(transport)@ == old(transport)@.moved(
                    self.exchange.id,
                    ExchangeState::Construction { rx, notification: self.exchange.notification },
                )
                &&& final(construction_notification).pending()
            },
            !old(transport)@.accepts(self.exchange.id) ==> {
                &&& result == Err::<Exchange, Error>(Error { code: ErrorCode::NoExchange })
                &&& final(transport)@ == old(transport)@.closed(self.exchange.id)
                &&& *final(construction_notification) == *old(construction_notification)
            },
    {
        let mut exchange = self.exchange;
        let notification = exchange.notification;
        match exchange.request(transport, ExchangeState::Construction { rx, notification }) {
            Ok(()) => {
                construction_notification.signal();
                Ok(exchange)
            },
            Err(e) => {
                exchange.close(transport);
                Err(e)
            },
        }
    }
}

/// An open exchange, in the hands of its owner.
///
/// Its owner closes it with [`Exchange::close`] when it is done with it.
pub struct Exchange {
    pub id: ExchangeId,
    /// The notification that the transport gives to this exchange.
    pub notification: NotificationRef,
}

impl Exchange {
    /// What identifies the exchange.
    pub fn id(&self) -> (id: &ExchangeId)
        ensures
            *id == self.id,
    {
        &self.id
    }

    /// Puts the exchange into `state`, if it is active.
    fn request(&self, transport: &mut Transport, state: ExchangeState) -> (result: Result<
        (),
        Error,
    >)
        ensures
            old(transport)@.accepts(self.id) ==> {
                &&& result == Ok::<(), Error>(())
                &&& final(transport)@ == old(transport)@.moved(self.id, state)
            },
            !old(transport)@.accepts(self.id) ==> {
                &&& result == Err::<(), Error>(Error { code: ErrorCode::NoExchange })
                &&& final(transport)@ == old(transport)@
            },
    {
        match Transport::get(&mut transport.exchanges, &self.id) {
            Some(ctx) => {
                if !matches!(ctx.state, ExchangeState::Active) {
                    return Err(Error::new(ErrorCode::NoExchange));
                }
                ctx.state = state;
                Ok(())
            },
            None => Err(Error::new(ErrorCode::NoExchange)),
        }
    }

    /// Asks the transport to acknowledge what the peer sent and to have the peer
    /// acknowledge what was sent to it.
    ///
    /// Returns whether the notification of the exchange has to be awaited: where
    /// nothing is outstanding there is nothing to wait for, and nothing changes.
    pub fn acknowledge(&mut self, transport: &mut Transport) -> (wait: Result<bool, Error>)
        ensures
            *final(self) == *old(self),
            !old(transport)@.accepts(old(self).id) ==> {
                &&& wait == Err::<bool, Error>(Error { code: ErrorCode::NoExchange })
                &&& final(transport)@ == old(transport)@
            },
            old(transport)@.accepts(old(self).id) ==> {
                &&& wait == Ok::<bool, Error>(
                    old(transport)@.ctx(old(self).id).unwrap().mrp.outstanding,
                )
                &&& final(transport)@ == if wait == Ok::<bool, Error>(true) {
                    old(transport)@.moved(
                        old(self).id,
                        ExchangeState::Acknowledge { notification: old(self).notification },
                    ).woken()
                } else {
                    old(transport)@
                }
            },
    {
        match Transport::get(&mut transport.exchanges, &self.id) {
            Some(ctx) => {
                if !matches!(ctx.state, ExchangeState::Active) {
                    return Err(Error::new(ErrorCode::NoExchange));
                }
                if ctx.mrp.is_empty() {
                    return Ok(false);
                }
                ctx.state = ExchangeState::Acknowledge { notification: self.notification };
            },
            None => {
                return Err(Error::new(ErrorCode::NoExchange));
            },
        }
        transport.send_notification.signal();
        Ok(true)
    }

    /// Asks the transport to send `tx` and to put the answer into `rx`. The answer
    /// is there once the notification of the exchange was given.
    pub fn exchange(&mut self, transport: &mut Transport, tx: PacketRef, rx: PacketRef) -> (result:
        Result<(), Error>)
        ensures
            *final(self) == *old(self),
            !old(transport)@.accepts(old(self).id) ==> {
                &&& result == Err::<(), Error>(Error { code: ErrorCode::NoExchange })
                &&& final(transport)@ == old(transport)@
            },
            old(transport)@.accepts(old(self).id) ==> {
                &&& result == Ok::<(), Error>(())
                &&& final(transport)@ == old(transport)@.moved(
                    old(self).id,
                    ExchangeState::ExchangeSend { tx, rx, notification: old(self).notification },
                ).woken()
            },
    {
        let notification = self.notification;
        match self.request(transport, ExchangeState::ExchangeSend { tx, rx, notification }) {
            Ok(()) => {
                transport.send_notification.signal();
                Ok(())
            },
            Err(e) => Err(e),
        }
    }

    /// Asks the transport to send `tx` as the last packet of the exchange. It was
    /// sent once the notification of the exchange was given.
    pub fn send_complete(&mut self, transport: &mut Transport, tx: PacketRef) -> (result: Result<
        (),
        Error,
    >)
        ensures
            *final(self) == *old(self),
            !old(transport)@.accepts(old(self).id) ==> {
                &&& result == Err::<(), Error>(Error { code: ErrorCode::NoExchange })
                &&& final(transport)@ == old(transport)@
            },
            old(transport)@.accepts(old(self).id) ==> {
                &&& result == Ok::<(), Error>(())
                &&& final(transport)@ == old(transport)@.moved(
                    old(self).id,
                    ExchangeState::Complete { tx, notification: old(self).notification },
                ).woken()
            },
    {
        let notification = self.notification;
        match self.request(transport, ExchangeState::Complete { tx, notification }) {
            Ok(()) => {
                transport.send_notification.signal();
                Ok(())
            },
            Err(e) => Err(e),
        }
    }

    /// Gives up the exchange after a last packet `tx`.
    ///
    /// Hands the exchange back, to be closed once its notification was given. If
    /// the packet is refused the exchange is closed at once.
    pub fn complete(self, transport: &mut Transport, tx: PacketRef) -> (result: Result<
        Exchange,
        Error,
    >)
        ensures
            !old(transport)@.accepts(self.id) ==> {
                &&& result == Err::<Exchange, Error>(Error { code: ErrorCode::NoExchange })
                &&& final(transport)@ == old(transport)@.closed(self.id)
            },
            old(transport)@.accepts(self.id) ==> {
                &&& result == Ok::<Exchange, Error>(self)
                &&& final(transport)@ == old(transport)@.moved(
                    self.id,
                    ExchangeState::Complete { tx, notification: self.notification },
                ).woken()
            },
    {
        let mut exchange = self;
        match exchange.send_complete(transport, tx) {
            Ok(()) => Ok(exchange),
            Err(e) => {
                exchange.close(transport);
                Err(e)
            },
        }
    }

    /// Closes the exchange, whatever it is doing, and wakes the sending task.
    pub fn close(&mut self, transport: &mut Transport)
        ensures
            *final(self) == *old(self),
            final(transport)@ == old(transport)@.closed(old(self).id),
    {
        match Transport::get(&mut transport.exchanges, &self.id) {
            Some(ctx) => {
                ctx.state = ExchangeState::Closed;
            },
            None => {
                return;
            },
        }
        transport.send_notification.signal();
    }

    /// Hands the session of the exchange to `f`, which may change it, and returns
    /// what `f` returns.
    pub fn with_session_mut<F, T>(&self, transport: &mut Transport, f: F) -> (result: Result<
        T,
        Error,
    >) where F: FnOnce(&mut Session) -> Result<T, Error>
        requires
            old(transport)@.session(self.id) matches Ok(i) ==> forall|session: &mut Session|
                *session == old(transport)@.sessions[i] ==> call_requires(f, (session,)),
        ensures
            match old(transport)@.session(self.id) {
                Err(e) => result == Err::<T, Error>(e) && final(transport)@ == old(transport)@,
                Ok(i) => exists|session: &mut Session|
                    {
                        &&& *session == old(transport)@.sessions[i]
                        &&& #[trigger] call_ensures(f, (session,), result)
                        &&& final(transport)@ == (TransportView {
                            sessions: old(transport)@.sessions.update(i, *final(session)),
                            ..old(transport)@
                        })
                    },
            },
    {
        let sess_index = match self.session_index(transport) {
            Ok(index) => index,
            Err(e) => {
                return Err(e);
            },
        };
        f(transport.session_mgr.mut_by_index(sess_index).unwrap())
    }

    /// Hands the session of the exchange to `f` and returns what `f` returns.
    pub fn with_session<F, T>(&self, transport: &Transport, f: F) -> (result: Result<
        T,
        Error,
    >) where F: FnOnce(&Session) -> Result<T, Error>
        requires
            transport@.session(self.id) matches Ok(i) ==> call_requires(
                f,
                (&transport@.sessions[i],),
            ),
        ensures
            match transport@.session(self.id) {
                Err(e) => result == Err::<T, Error>(e),
                Ok(i) => call_ensures(f, (&transport@.sessions[i],), result),
            },
    {
        match self.session_index(transport) {
            Ok(index) => f(&transport.session_mgr.sessions[index]),
            Err(e) => Err(e),
        }
    }

    /// Hands all sessions to `f`, which may change them, and returns what `f`
    /// returns. The exchange need not exist.
    pub fn with_session_mgr_mut<F, T>(&self, transport: &mut Transport, f: F) -> (result: Result<
        T,
        Error,
    >) where F: FnOnce(&mut SessionMgr) -> Result<T, Error>
        requires
            forall|session_mgr: &mut SessionMgr|
                *session_mgr == old(transport).session_mgr ==> call_requires(f, (session_mgr,)),
        ensures
            exists|session_mgr: &mut SessionMgr|
                {
                    &&& *session_mgr == old(transport).session_mgr
                    &&& #[trigger] call_ensures(f, (session_mgr,), result)
                    &&& final(transport)@ == (TransportView {
                        sessions: final(session_mgr)@,
                        ..old(transport)@
                    })
                },
    {
        let session_mgr: &mut SessionMgr = &mut transport.session_mgr;
        f(session_mgr)
    }

    /// What `for_session` makes of the session of the exchange: the subject that
    /// access control judges.
    pub fn accessor<F, T>(&self, transport: &Transport, for_session: F) -> (result: Result<
        T,
        Error,
    >) where F: FnOnce(&Session) -> T
        requires
            transport@.session(self.id) matches Ok(i) ==> call_requires(
                for_session,
                (&transport@.sessions[i],),
            ),
        ensures
            match transport@.session(self.id) {
                Err(e) => result == Err::<T, Error>(e),
                Ok(i) => result matches Ok(accessor) && call_ensures(
                    for_session,
                    (&transport@.sessions[i],),
                    accessor,
                ),
            },
    {
        match self.session_index(transport) {
            Ok(index) => Ok(for_session(&transport.session_mgr.sessions[index])),
            Err(e) => Err(e),
        }
    }

    /// The place of the session of the exchange.
    fn session_index(&self, transport: &Transport) -> (index: Result<usize, Error>)
        ensures
            match transport@.session(self.id) {
                Ok(i) => index matches Ok(n) && n == i && 0 <= i < transport@.sessions.len(),
                Err(e) => index == Err::<usize, Error>(e),
            },
    {
        if !transport.has(&self.id) {
            return Err(Error::new(ErrorCode::NoExchange));
        }
        match transport.session_mgr.get(
            self.id.session_id.id,
            self.id.session_id.peer_addr,
            self.id.session_id.peer_nodeid,
            self.id.session_id.is_encrypted,
        ) {
            Some(index) => Ok(index),
            None => Err(Error::new(ErrorCode::NoSession)),
        }
    }
}

} // verus!
