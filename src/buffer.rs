//! The byte buffers of a connection, as netbuf keeps them.
use vstd::prelude::*;

verus! {

/// A growable byte queue: bytes are appended at the back and consumed from
/// the front.
#[verifier::external_type_specification]
#[verifier::external_body]
pub struct ExBuf(netbuf::Buf);

/// The bytes that a buffer holds, front first.
pub uninterp spec fn buf_bytes(b: netbuf::Buf) -> Seq<u8>;

/// Relies on netbuf::Buf::new: a new buffer holds no bytes.
pub assume_specification[ netbuf::Buf::new ]() -> (r: netbuf::Buf)
    ensures
        buf_bytes(r) == Seq::<u8>::empty(),
;

/// Relies on netbuf::Buf::len: the number of bytes held.
pub assume_specification[ netbuf::Buf::len ](b: &netbuf::Buf) -> (r: usize)
    ensures
        r as int == buf_bytes(*b).len(),
;

/// Relies on netbuf::Buf::extend: the slice is appended at the back.
pub assume_specification[ netbuf::Buf::extend ](b: &mut netbuf::Buf, data: &[u8])
    ensures
        buf_bytes(*final(b)) == buf_bytes(*old(b)) + data@,
;

/// Relies on netbuf::Buf::consume: the first `bytes` bytes are dropped; it
/// panics when more bytes are asked for than the buffer holds.
pub assume_specification[ netbuf::Buf::consume ](b: &mut netbuf::Buf, bytes: usize)
    requires
        bytes <= buf_bytes(*old(b)).len(),
    ensures
        buf_bytes(*final(b)) == buf_bytes(*old(b)).skip(bytes as int),
;

} // verus!
