//! The table of sessions.
use crate::transport::network::Address;
use vstd::prelude::*;

verus! {

/// A session with a peer: the values by which it is found.
#[derive(Clone, Copy, Debug, PartialEq, Eq, Structural)]
pub struct Session {
    /// The id under which the peer addresses the session.
    pub local_sess_id: u16,
    pub peer_addr: Address,
    /// The node of the peer, if it is known.
    pub peer_nodeid: Option<u64>,
    pub encrypted: bool,
}

impl Session {
    /// Whether a packet with the given session id, peer, node and kind belongs to
    /// this session. Where the packet or the session does not name the node, every
    /// node fits.
    pub open spec fn is_for(
        self,
        sess_id: u16,
        peer_addr: Address,
        peer_nodeid: Option<u64>,
        is_encrypted: bool,
    ) -> bool {
        &&& self.local_sess_id == sess_id
        &&& self.peer_addr == peer_addr
        &&& self.peer_nodeid is None || peer_nodeid is None || self.peer_nodeid == peer_nodeid
        &&& self.encrypted == is_encrypted
    }
}

/// Whether `index` is the first place in `sessions` that holds the given session.
pub open spec fn first_session(
    sessions: Seq<Session>,
    sess_id: u16,
    peer_addr: Address,
    peer_nodeid: Option<u64>,
    is_encrypted: bool,
    index: int,
) -> bool {
    &&& 0 <= index < sessions.len()
    &&& sessions[index].is_for(sess_id, peer_addr, peer_nodeid, is_encrypted)
    &&& forall|j: int|
        0 <= j < index ==> !(#[trigger] sessions[j]).is_for(
            sess_id,
            peer_addr,
            peer_nodeid,
            is_encrypted,
        )
}

/// The first place in `sessions` that holds the given session, if there is one.
pub open spec fn find_session(
    sessions: Seq<Session>,
    sess_id: u16,
    peer_addr: Address,
    peer_nodeid: Option<u64>,
    is_encrypted: bool,
) -> Option<int> {
    if exists|index: int|
        first_session(sessions, sess_id, peer_addr, peer_nodeid, is_encrypted, index) {
        Some(
            choose|index: int|
                first_session(sessions, sess_id, peer_addr, peer_nodeid, is_encrypted, index),
        )
    } else {
        None
    }
}

/// There is one first place at most, and `find_session` is that place.
pub proof fn first_session_is_found(
    sessions: Seq<Session>,
    sess_id: u16,
    peer_addr: Address,
    peer_nodeid: Option<u64>,
    is_encrypted: bool,
    index: int,
)
    requires
        first_session(sessions, sess_id, peer_addr, peer_nodeid, is_encrypted, index),
    ensures
        find_session(sessions, sess_id, peer_addr, peer_nodeid, is_encrypted) == Some(index),
{
    let found = choose|i: int|
        first_session(sessions, sess_id, peer_addr, peer_nodeid, is_encrypted, i);
    assert(first_session(sessions, sess_id, peer_addr, peer_nodeid, is_encrypted, found));
    if found < index {
        assert(!sessions[found].is_for(sess_id, peer_addr, peer_nodeid, is_encrypted));
    } else if index < found {
        assert(!sessions[index].is_for(sess_id, peer_addr, peer_nodeid, is_encrypted));
    }
}

/// The sessions of a node.
pub struct SessionMgr {
    pub sessions: Vec<Session>,
}

impl View for SessionMgr {
    type V = Seq<Session>;

    open spec fn view(&self) -> Seq<Session> {
        self.sessions@
    }
}

impl SessionMgr {
    /// A table without sessions.
    pub fn new() -> (mgr: SessionMgr)
        ensures
            mgr@ == Seq::<Session>::empty(),
    {
        SessionMgr { sessions: Vec::new() }
    }

    /// The place of the first session that a packet with the given session id, peer,
    /// node and kind belongs to.
    pub fn get(
        &self,
        sess_id: u16,
        peer_addr: Address,
        peer_nodeid: Option<u64>,
        is_encrypted: bool,
    ) -> (index: Option<usize>)
        ensures
            match index {
                Some(i) => i < self@.len() && find_session(
                    self@,
                    sess_id,
                    peer_addr,
                    peer_nodeid,
                    is_encrypted,
                ) == Some(i as int),
                None => find_session(
                    self@,
                    sess_id,
                    peer_addr,
                    peer_nodeid,
                    is_encrypted,
                ) is None,
            },
    {
        for i in 0..self.sessions.len()
            invariant
                forall|j: int|
                    0 <= j < i ==> !(#[trigger] self@[j]).is_for(
                        sess_id,
                        peer_addr,
                        peer_nodeid,
                        is_encrypted,
                    ),
        {
            let session = &self.sessions[i];
            let nodeid_matches = session.peer_nodeid.is_none() || peer_nodeid.is_none()
                || session.peer_nodeid == peer_nodeid;
            if nodeid_matches && session.local_sess_id == sess_id && session.peer_addr == peer_addr
                && session.encrypted == is_encrypted {
                proof {
                    first_session_is_found(
                        self@,
                        sess_id,
                        peer_addr,
                        peer_nodeid,
                        is_encrypted,
                        i as int,
                    );
                }
                return Some(i);
            }
        }
        None
    }

    /// The session at the given place, to be changed.
    pub fn mut_by_index(&mut self, index: usize) -> (session: Option<&mut Session>)
        ensures
            match session {
                Some(s) => {
                    &&& index < old(self)@.len()
                    &&& *s == old(self)@[index as int]
                    &&& final(self)@ == old(self)@.update(index as int, *final(s))
                },
                None => index >= old(self)@.len() && final(self)@ == old(self)@,
            },
    {
        if index < self.sessions.len() {
            Some(&mut self.sessions[index])
        } else {
            None
        }
    }
}

} // verus!
