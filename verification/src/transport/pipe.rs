//! Pipes: buffers that hold one packet at a time on its way between two tasks.
//!
//! One task supplies a packet and gives the "data supplied" notification; another
//! consumes it and gives the "data consumed" notification. A pipe is filled only
//! while it is free, so no packet is lost on the way.
use crate::error::Error;
use crate::notification::Notification;
use crate::transport::network::Address;
use vstd::prelude::*;

verus! {

/// A packet in the buffer of a pipe: the bytes from `start` to before `end`, and
/// the peer that they came from or go to.
#[derive(Clone, Copy, Debug, PartialEq, Eq, Structural)]
pub struct Chunk {
    pub start: usize,
    pub end: usize,
    pub addr: Address,
}

/// The buffer of a pipe, and the packet that it holds, if any.
pub struct PipeData {
    pub buf: Vec<u8>,
    pub chunk: Option<Chunk>,
}

/// The mathematical content of a `PipeData`.
#[verifier::ext_equal]
pub struct PipeView {
    pub buf: Seq<u8>,
    pub chunk: Option<Chunk>,
}

impl View for PipeData {
    type V = PipeView;

    open spec fn view(&self) -> PipeView {
        PipeView { buf: self.buf@, chunk: self.chunk }
    }
}

impl PipeView {
    /// The packet lies within the buffer.
    pub open spec fn wf(self) -> bool {
        self.chunk matches Some(chunk) ==> chunk.start <= chunk.end <= self.buf.len()
    }

    /// Whether there is room for a packet.
    pub open spec fn is_free(self) -> bool {
        self.chunk is None
    }

    /// The bytes of the packet that the pipe holds.
    pub open spec fn payload(self) -> Seq<u8> {
        self.buf.subrange(self.chunk->0.start as int, self.chunk->0.end as int)
    }

    /// The pipe that holds a packet of `len` bytes at the start of its buffer `buf`,
    /// for or from `addr`.
    pub open spec fn filled(buf: Seq<u8>, len: usize, addr: Address) -> PipeView {
        PipeView { buf, chunk: Some(Chunk { start: 0, end: len, addr }) }
    }

    /// The free pipe with buffer `buf` after a packet for `addr` was encoded into it,
    /// with the given outcome. An empty packet is none.
    pub open spec fn offered(
        buf: Seq<u8>,
        encoded: Result<usize, Error>,
        addr: Address,
    ) -> PipeView {
        match encoded {
            Ok(len) if len > 0 => PipeView::filled(buf, len, addr),
            _ => PipeView { buf, chunk: None },
        }
    }

    /// The pipe after its packet was consumed.
    pub open spec fn consumed(self) -> PipeView {
        PipeView { chunk: None, ..self }
    }
}

impl PipeData {
    /// A free pipe with the given buffer.
    pub fn new(buf: Vec<u8>) -> (data: PipeData)
        ensures
            data@ == (PipeView { buf: buf@, chunk: None }),
            data@.wf(),
    {
        PipeData { buf, chunk: None }
    }

    /// The packet that waits in the pipe: its peer and its bytes.
    pub fn peek(&self) -> (packet: Option<(Address, &[u8])>)
        requires
            self@.wf(),
        ensures
            match packet {
                Some((addr, bytes)) => {
                    &&& self@.chunk matches Some(chunk)
                    &&& addr == chunk.addr
                    &&& bytes@ == self@.payload()
                },
                None => self@.is_free(),
            },
    {
        match self.chunk {
            Some(chunk) => Some((chunk.addr, &self.buf[chunk.start..chunk.end])),
            None => None,
        }
    }

    /// Frees the pipe and gives its "data consumed" notification.
    pub fn consume(&mut self, data_consumed_notification: &mut Notification)
        ensures
            final(self)@ == old(self)@.consumed(),
            final(self)@.wf(),
            final(data_consumed_notification).pending(),
    {
        self.chunk = None;
        data_consumed_notification.signal();
    }

    /// Fills the free pipe with the `len` bytes that were written to the start of
    /// its buffer, for or from `addr`, and gives its "data supplied" notification.
    pub fn supply(
        &mut self,
        data_supplied_notification: &mut Notification,
        len: usize,
        addr: Address,
    )
        requires
            old(self)@.is_free(),
            len <= old(self)@.buf.len(),
        ensures
            final(self)@ == PipeView::filled(old(self)@.buf, len, addr),
            final(self)@.wf(),
            final(data_supplied_notification).pending(),
    {
        self.chunk = Some(Chunk { start: 0, end: len, addr });
        data_supplied_notification.signal();
    }

    /// Fills the free pipe with a packet for `addr` that was encoded to the start of
    /// its buffer, if the encoding succeeded and is not empty, and then gives its
    /// "data supplied" notification. A failure is returned.
    pub fn offer(
        &mut self,
        data_supplied_notification: &mut Notification,
        encoded: Result<usize, Error>,
        addr: Address,
    ) -> (result: Result<(), Error>)
        requires
            old(self)@.is_free(),
            encoded matches Ok(len) ==> len <= old(self)@.buf.len(),
        ensures
            result == match encoded {
                Ok(_) => Ok::<(), Error>(()),
                Err(e) => Err::<(), Error>(e),
            },
            final(self)@ == PipeView::offered(old(self)@.buf, encoded, addr),
            final(self)@.wf(),
            if final(self)@.is_free() {
                *final(data_supplied_notification) == *old(data_supplied_notification)
            } else {
                final(data_supplied_notification).pending()
            },
    {
        match encoded {
            Ok(len) => {
                if len > 0 {
                    self.supply(data_supplied_notification, len, addr);
                }
                Ok(())
            },
            Err(e) => Err(e),
        }
    }
}

} // verus!
