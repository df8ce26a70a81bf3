//! The state that all exchanges of a node share.
use crate::error::{Error, ErrorCode};
use crate::notification::Notification;
use crate::transport::exchange::{ExchangeCtx, ExchangeId, ExchangeState};
use crate::transport::session::{Session, SessionMgr};
use vstd::prelude::*;

verus! {

/// The exchanges and sessions of a node, and the wake-up of the task that sends.
pub struct Transport {
    /// The open exchanges.
    pub exchanges: Vec<ExchangeCtx>,
    /// The sessions.
    pub session_mgr: SessionMgr,
    /// Given when an exchange has work for the sending task.
    pub send_notification: Notification,
}

/// The mathematical content of a `Transport`.
#[verifier::ext_equal]
pub struct TransportView {
    pub exchanges: Seq<ExchangeCtx>,
    pub sessions: Seq<Session>,
    /// Whether the sending task has been woken.
    pub send_pending: bool,
}

impl View for Transport {
    type V = TransportView;

    open spec fn view(&self) -> TransportView {
        TransportView {
            exchanges: self.exchanges@,
            sessions: self.session_mgr@,
            send_pending: self.send_notification.pending(),
        }
    }
}

/// Whether `index` is the first place in `exchanges` that holds exchange `id`.
pub open spec fn first_exchange(
    exchanges: Seq<ExchangeCtx>,
    id: ExchangeId,
    index: int,
) -> bool {
    &&& 0 <= index < exchanges.len()
    &&& exchanges[index].id == id
    &&& forall|j: int| 0 <= j < index ==> (#[trigger] exchanges[j]).id != id
}

/// The first place in `exchanges` that holds exchange `id`, if there is one.
pub open spec fn find_exchange(exchanges: Seq<ExchangeCtx>, id: ExchangeId) -> Option<int> {
    if exists|index: int| first_exchange(exchanges, id, index) {
        Some(choose|index: int| first_exchange(exchanges, id, index))
    } else {
        None
    }
}

/// There is one first place at most, and `find_exchange` is that place.
pub proof fn first_exchange_is_found(exchanges: Seq<ExchangeCtx>, id: ExchangeId, index: int)
    requires
        first_exchange(exchanges, id, index),
    ensures
        find_exchange(exchanges, id) == Some(index),
{
    let found = choose|i: int| first_exchange(exchanges, id, i);
    assert(first_exchange(exchanges, id, found));
    if found < index {
        assert(exchanges[found].id != id);
    } else if index < found {
        assert(exchanges[index].id != id);
    }
}

impl TransportView {
    /// The context of exchange `id`, if there is one.
    pub open spec fn ctx(self, id: ExchangeId) -> Option<ExchangeCtx> {
        match find_exchange(self.exchanges, id) {
            Some(i) => Some(self.exchanges[i]),
            None => None,
        }
    }

    /// The place of the session of exchange `id`, or the error that tells what is
    /// missing.
    pub open spec fn session(self, id: ExchangeId) -> Result<int, Error> {
        if self.ctx(id) is None {
            Err(Error { code: ErrorCode::NoExchange })
        } else {
            match crate::transport::session::find_session(
                self.sessions,
                id.session_id.id,
                id.session_id.peer_addr,
                id.session_id.peer_nodeid,
                id.session_id.is_encrypted,
            ) {
                Some(i) => Ok(i),
                None => Err(Error { code: ErrorCode::NoSession }),
            }
        }
    }

    /// Whether exchange `id` exists and may ask for something: it is active.
    pub open spec fn accepts(self, id: ExchangeId) -> bool {
        self.ctx(id) matches Some(ctx) && ctx.state is Active
    }

    /// The transport after exchange `id`, if it exists, was put into `state`.
    pub open spec fn moved(self, id: ExchangeId, state: ExchangeState) -> TransportView {
        match find_exchange(self.exchanges, id) {
            Some(i) => TransportView {
                exchanges: self.exchanges.update(
                    i,
                    ExchangeCtx { state, ..self.exchanges[i] },
                ),
                ..self
            },
            None => self,
        }
    }

    /// The transport after its sending task was woken.
    pub open spec fn woken(self) -> TransportView {
        TransportView { send_pending: true, ..self }
    }

    /// The transport after exchange `id` was closed. The sending task is woken to
    /// clear it away; of an exchange that does not exist nothing is left to do.
    pub open spec fn closed(self, id: ExchangeId) -> TransportView {
        if self.ctx(id) is Some {
            self.moved(id, ExchangeState::Closed).woken()
        } else {
            self
        }
    }
}

impl Transport {
    /// A transport without exchanges and sessions.
    pub fn new() -> (transport: Transport)
        ensures
            transport@ == (TransportView {
                exchanges: Seq::empty(),
                sessions: Seq::empty(),
                send_pending: false,
            }),
    {
        Transport {
            exchanges: Vec::new(),
            session_mgr: SessionMgr::new(),
            send_notification: Notification::new(),
        }
    }

    /// Whether there is an exchange `id`.
    pub fn has(&self, id: &ExchangeId) -> (found: bool)
        ensures
            found == (self@.ctx(*id) is Some),
    {
        for i in 0..self.exchanges.len()
            invariant
                forall|j: int| 0 <= j < i ==> (#[trigger] self.exchanges@[j]).id != *id,
        {
            if self.exchanges[i].id == *id {
                proof {
                    first_exchange_is_found(self.exchanges@, *id, i as int);
                }
                return true;
            }
        }
        false
    }

    /// The context of exchange `id` in `exchanges`, to be changed.
    pub fn get<'r>(exchanges: &'r mut Vec<ExchangeCtx>, id: &ExchangeId) -> (ctx: Option<
        &'r mut ExchangeCtx,
    >)
        ensures
            match ctx {
                Some(ctx) => {
                    &&& find_exchange(old(exchanges)@, *id) matches Some(i)
                    &&& 0 <= i < old(exchanges)@.len()
                    &&& *ctx == old(exchanges)@[i]
                    &&& final(exchanges)@ == old(exchanges)@.update(i, *final(ctx))
                },
                None => {
                    &&& find_exchange(old(exchanges)@, *id) is None
                    &&& final(exchanges)@ == old(exchanges)@
                },
            },
    {
        let len: usize = exchanges.len();
        let mut i: usize = 0;
        while i < len
            invariant
                i <= len,
                len == exchanges@.len(),
                exchanges@ == old(exchanges)@,
                forall|j: int| 0 <= j < i ==> (#[trigger] exchanges@[j]).id != *id,
            decreases len - i,
        {
            if exchanges[i].id == *id {
                proof {
                    first_exchange_is_found(exchanges@, *id, i as int);
                }
                return Some(&mut exchanges[i]);
            }
            i += 1;
        }
        None
    }
}

} // verus!
