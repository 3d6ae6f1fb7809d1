//! What a connection offers to the protocol that it drives, and what it asks
//! of it.
use vstd::prelude::*;
use crate::buffer::buf_bytes;

verus! {

/// An I/O error handed to the protocol as it came from the socket.
#[verifier::external_type_specification]
#[verifier::external_body]
pub struct ExIoError(std::io::Error);

/// The outcome of a protocol callback: go on with a new protocol state and a
/// result, or end the connection.
pub enum Async<M, N> {
    Continue(M, N),
    Stop,
}

/// The two buffers of a connection, lent to a protocol for one callback.
pub struct Transport {
    inbuf: netbuf::Buf,
    outbuf: netbuf::Buf,
}

impl Transport {
    /// Bytes read from the peer that the protocol has not consumed yet.
    pub closed spec fn in_bytes(&self) -> Seq<u8> {
        buf_bytes(self.inbuf)
    }

    /// Bytes that the protocol produced and the peer has not been sent yet.
    pub closed spec fn out_bytes(&self) -> Seq<u8> {
        buf_bytes(self.outbuf)
    }

    pub(crate) fn new() -> (r: Transport)
        ensures
            r.in_bytes() == Seq::<u8>::empty(),
            r.out_bytes() == Seq::<u8>::empty(),
    {
        Transport { inbuf: netbuf::Buf::new(), outbuf: netbuf::Buf::new() }
    }

    /// The input buffer.
    pub fn input(&mut self) -> (r: &mut netbuf::Buf)
        ensures
            buf_bytes(*r) == old(self).in_bytes(),
            final(self).in_bytes() == buf_bytes(*final(r)),
            final(self).out_bytes() == old(self).out_bytes(),
    {
        &mut self.inbuf
    }

    /// The output buffer.
    pub fn output(&mut self) -> (r: &mut netbuf::Buf)
        ensures
            buf_bytes(*r) == old(self).out_bytes(),
            final(self).out_bytes() == buf_bytes(*final(r)),
            final(self).in_bytes() == old(self).in_bytes(),
    {
        &mut self.outbuf
    }

    pub(crate) fn input_ref(&self) -> (r: &netbuf::Buf)
        ensures
            buf_bytes(*r) == self.in_bytes(),
    {
        &self.inbuf
    }

    pub(crate) fn output_ref(&self) -> (r: &netbuf::Buf)
        ensures
            buf_bytes(*r) == self.out_bytes(),
    {
        &self.outbuf
    }

    pub(crate) fn out_len(&self) -> (r: usize)
        ensures
            r as int == self.out_bytes().len(),
    {
        self.outbuf.len()
    }

    /// Appends bytes that came from the peer to the input buffer.
    pub(crate) fn push_input(&mut self, data: &[u8])
        ensures
            final(self).in_bytes() == old(self).in_bytes() + data@,
            final(self).out_bytes() == old(self).out_bytes(),
    {
        self.inbuf.extend(data);
    }

    /// Drops from the output buffer the first `n` bytes, which the peer was
    /// sent.
    pub(crate) fn drop_output(&mut self, n: usize)
        requires
            n <= old(self).out_bytes().len(),
        ensures
            final(self).out_bytes() == old(self).out_bytes().skip(n as int),
            final(self).in_bytes() == old(self).in_bytes(),
    {
        self.outbuf.consume(n);
    }
}

/// A byte-stream protocol. A connection owns one protocol state and hands it
/// by value to one callback at a time; each callback gives back the next
/// state, or `Stop`. `C` is the context that the reactor lends to callbacks.
pub trait Protocol<C>: Sized {
    /// Makes the protocol state of a freshly accepted socket; `None` refuses
    /// the connection before any I/O.
    fn accepted<S>(conn: &mut S, scope: &mut C) -> Option<Self>;

    /// Bytes were appended to the input buffer.
    fn data_received(self, trans: &mut Transport, scope: &mut C) -> Async<Self, ()>;

    /// Bytes of the output buffer were sent to the peer.
    fn data_transferred(self, trans: &mut Transport, scope: &mut C) -> Async<Self, ()> {
        Async::Continue(self, ())
    }

    /// A hard I/O error ended the connection.
    fn error_happened(self, err: std::io::Error, scope: &mut C) {
    }

    /// The peer closed the connection.
    fn eof_received(self, scope: &mut C) {
    }

    /// A timer of this connection fired.
    fn timeout(self, scope: &mut C) -> Async<Self, ()> {
        Async::Continue(self, ())
    }

    /// Another part of the program nudged this connection.
    fn wakeup(self, scope: &mut C) -> Async<Self, ()> {
        Async::Continue(self, ())
    }
}

} // verus!
