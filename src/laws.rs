//! Laws of a connection that hold across its steps.
//!
//! Every step of a connection requires it to be well formed and live, and
//! keeps it well formed; an activation ends with `Step::Yield` in the idle
//! phase or with `Step::Stop`, after which the connection is no longer live.
//! So these facts about well-formed connections are facts about every
//! connection that the steps produce.
use vstd::prelude::*;
use crate::stream::{all_echo, Phase, Stream};

verus! {

/// When an activation yields, no output is left behind on a socket known to
/// be writable: the output buffer is empty or the writable latch is clear.
pub proof fn lemma_yield_leaves_no_writable_output<P>(s: Stream<P>)
    requires
        s.wf(),
        s.is_live(),
        s.phase() == Phase::Idle,
    ensures
        s.out_bytes().len() == 0 || !s.writable(),
{
}

/// When an activation yields, no readability is left unused: the read side
/// was drained to `WouldBlock`, or never signalled, and the readable latch is
/// clear.
pub proof fn lemma_yield_leaves_no_readiness<P>(s: Stream<P>)
    requires
        s.wf(),
        s.is_live(),
        s.phase() == Phase::Idle,
    ensures
        !s.readable(),
{
}

/// `eof_received` and `error_happened` come at most once in all, as the last
/// callback of a connection, which is then no longer live and takes no
/// further step.
pub proof fn lemma_ending_callback_once<P>(s: Stream<P>)
    requires
        s.wf(),
    ensures
        forall|i: int, j: int|
            0 <= i < s.calls().len() && 0 <= j < s.calls().len()
                && (#[trigger] s.calls()[i]).ends_connection()
                && (#[trigger] s.calls()[j]).ends_connection() ==> i == j,
        forall|i: int|
            0 <= i < s.calls().len() && (#[trigger] s.calls()[i]).ends_connection()
                ==> i == s.calls().len() - 1 && !s.is_live(),
{
}

/// A callback after which the connection ended (a protocol's `Stop` among
/// them) is the last callback: the connection is no longer live and takes no
/// further step.
pub proof fn lemma_stop_is_last<P>(s: Stream<P>)
    requires
        s.wf(),
    ensures
        forall|i: int|
            0 <= i < s.calls().len() && (#[trigger] s.calls()[i]).stopped
                ==> i == s.calls().len() - 1 && !s.is_live(),
{
}

/// With a protocol that in every callback moves bytes from the front of the
/// input to the back of the output, and changes the buffers in no other way,
/// the bytes written to the peer, then those still queued for it, then those
/// not yet consumed, are the bytes read from it, in order. So once both
/// buffers are empty every byte read has been written back, and a yield
/// leaves queued bytes only on a socket that is not writable.
pub proof fn lemma_echo_writes_back<P>(s: Stream<P>)
    requires
        s.wf(),
        all_echo(s.calls()),
    ensures
        s.bytes_written() + s.out_bytes() + s.in_bytes() == s.bytes_read(),
        s.out_bytes().len() == 0 && s.in_bytes().len() == 0 ==> s.bytes_written() == s.bytes_read(),
{
    if s.out_bytes().len() == 0 && s.in_bytes().len() == 0 {
        assert(s.bytes_written() + s.out_bytes() + s.in_bytes() =~= s.bytes_written());
    }
}

} // verus!
