//! The connection: one readiness notification from an edge-triggered reactor
//! becomes a write drain, a read drain and a second write drain, with the
//! protocol's callbacks in between.
//!
//! The socket itself stays with the caller. An activation is a sequence of
//! steps: `ready` starts it, and each `Step::Write` or `Step::Read` asks the
//! caller for one write or read on the socket, whose outcome goes back through
//! `sent` or `received`. `Step::Yield` hands control back to the reactor with
//! the connection alive; `Step::Stop` ends it.
use vstd::prelude::*;
use crate::buffer::buf_bytes;
use crate::protocol::{Async, Protocol, Transport};

verus! {

/// A point in time, as the reactor's timers keep it.
#[verifier::external_type_specification]
#[verifier::external_body]
pub struct ExSteadyTime(time::SteadyTime);

/// The deadline of a connection's timer.
pub struct Timeout(pub time::SteadyTime);

/// The outcome of one read or write on the socket: `Done(0)` or an empty read
/// is the peer's close.
pub enum Io<T> {
    Done(T),
    WouldBlock,
    Interrupted,
    Failed(std::io::Error),
}

/// What the caller does next for a connection.
#[derive(PartialEq, Eq, Structural, Clone, Copy, Debug)]
pub enum Step {
    /// Write the output buffer to the socket and report through `sent`.
    Write,
    /// Read from the socket and report through `received`.
    Read,
    /// The activation is over; the connection waits for the reactor.
    Yield,
    /// The connection has ended: deregister and close the socket.
    Stop,
}

/// Where a connection stands within an activation.
#[derive(PartialEq, Eq, Structural, Clone, Copy, Debug)]
pub enum Phase {
    /// Between activations.
    Idle,
    /// Draining the output buffer because writability was signalled.
    FirstWrite,
    /// Draining the socket's read side.
    Reading,
    /// Flushing what the protocol produced during the activation.
    SecondWrite,
}

/// The protocol callbacks, as the record of a connection names them.
pub enum Callback {
    DataReceived,
    DataTransferred,
    EofReceived,
    ErrorHappened,
    Timeout,
    Wakeup,
}

/// One callback that a connection made: the input and output bytes that the
/// buffers held when it was called and when it returned, and whether the
/// connection ended with it (the protocol returned `Stop`, or it was
/// `eof_received` or `error_happened`).
pub struct Call {
    pub callback: Callback,
    pub input: Seq<u8>,
    pub output: Seq<u8>,
    pub input_after: Seq<u8>,
    pub output_after: Seq<u8>,
    pub stopped: bool,
}

impl Call {
    /// The callback is one that always ends the connection.
    pub open spec fn ends_connection(self) -> bool {
        self.callback is EofReceived || self.callback is ErrorHappened
    }

    /// The callback moved some bytes from the front of the input to the back
    /// of the output, and changed the buffers in no other way.
    pub open spec fn echoes(self) -> bool {
        exists|k: int|
            0 <= k <= self.input.len() && self.input_after == self.input.skip(k)
                && self.output_after == self.output + self.input.take(k)
    }
}

/// Each callback of the record moved bytes from input to output and did
/// nothing else to the buffers.
pub open spec fn all_echo(calls: Seq<Call>) -> bool {
    forall|i: int| 0 <= i < calls.len() ==> (#[trigger] calls[i]).echoes()
}

/// If every call of a record echoes, so does every call of what came before
/// its last one.
proof fn lemma_echo_prefix(calls: Seq<Call>, c: Call)
    requires
        all_echo(calls.push(c)),
    ensures
        all_echo(calls),
        c.echoes(),
{
    assert forall|i: int| 0 <= i < calls.len() implies (#[trigger] calls[i]).echoes() by {
        assert(calls.push(c)[i] == calls[i]);
    }
    assert(calls.push(c)[calls.len() as int] == c);
}

/// A callback that echoes keeps the bytes in order: written, then queued,
/// then unconsumed.
proof fn lemma_echo_keeps_order(written: Seq<u8>, read: Seq<u8>, c: Call)
    requires
        c.echoes(),
        written + c.output + c.input == read,
    ensures
        written + c.output_after + c.input_after == read,
{
    let k = choose|k: int|
        0 <= k <= c.input.len() && c.input_after == c.input.skip(k)
            && c.output_after == c.output + c.input.take(k);
    assert(c.input.take(k) + c.input.skip(k) =~= c.input);
    assert(written + c.output_after + c.input_after =~= written + c.output + c.input);
}

/// A connection: its buffers, its readiness latches and its protocol state.
pub struct Stream<P> {
    trans: Transport,
    readable: bool,
    writable: bool,
    phase: Phase,
    protocol: Option<P>,
    log: Ghost<Seq<Call>>,
    read_log: Ghost<Seq<u8>>,
    written_log: Ghost<Seq<u8>>,
}

impl<P> Stream<P> {
    /// Bytes read from the peer that the protocol has not consumed yet.
    pub closed spec fn in_bytes(&self) -> Seq<u8> {
        self.trans.in_bytes()
    }

    /// Bytes that wait to be written to the peer.
    pub closed spec fn out_bytes(&self) -> Seq<u8> {
        self.trans.out_bytes()
    }

    /// Readability was signalled and no read has met `WouldBlock` since.
    pub closed spec fn readable(&self) -> bool {
        self.readable
    }

    /// The socket is believed to take more bytes without blocking.
    pub closed spec fn writable(&self) -> bool {
        self.writable
    }

    /// Where the connection stands within an activation.
    pub closed spec fn phase(&self) -> Phase {
        self.phase
    }

    /// The connection holds a protocol state: it has not ended.
    pub closed spec fn is_live(&self) -> bool {
        self.protocol is Some
    }

    /// Every callback made so far, oldest first.
    pub closed spec fn calls(&self) -> Seq<Call> {
        self.log@
    }

    /// Every byte read from the socket so far.
    pub closed spec fn bytes_read(&self) -> Seq<u8> {
        self.read_log@
    }

    /// Every byte written to the socket so far.
    pub closed spec fn bytes_written(&self) -> Seq<u8> {
        self.written_log@
    }

    /// Only the last callback can have ended the connection, `eof_received`
    /// and `error_happened` always end it, and the connection is live exactly
    /// when no callback has ended it. While every callback only moved input
    /// to output, the bytes written, then those queued, then those unconsumed
    /// are the bytes read. Within a live connection the phase and the latches
    /// agree: between activations no readiness is left unused, and a write
    /// drain runs only on a writable socket with bytes to send.
    pub open spec fn wf(&self) -> bool {
        &&& forall|i: int| 0 <= i < self.calls().len() - 1 ==> !(#[trigger] self.calls()[i]).stopped
        &&& forall|i: int| 0 <= i < self.calls().len() ==> (#[trigger] self.calls()[i]).ends_connection()
            ==> self.calls()[i].stopped
        &&& self.is_live() <==> !(self.calls().len() > 0 && self.calls().last().stopped)
        &&& all_echo(self.calls()) ==> self.bytes_written() + self.out_bytes() + self.in_bytes() == self.bytes_read()
        &&& self.is_live() ==> match self.phase() {
            Phase::Idle => !self.readable() && (self.out_bytes().len() == 0 || !self.writable()),
            Phase::FirstWrite => self.writable() && self.out_bytes().len() > 0,
            Phase::Reading => self.readable(),
            Phase::SecondWrite => self.writable() && self.out_bytes().len() > 0 && !self.readable(),
        }
    }

    /// The connection of a freshly accepted socket, if the protocol takes it.
    /// It is taken to be writable at once, and nothing has been read.
    pub fn accept<C, S>(conn: &mut S, scope: &mut C) -> (r: Option<Self>)
        where P: Protocol<C>,
        ensures
            r matches Some(s) ==> {
                &&& s.wf()
                &&& s.is_live()
                &&& s.phase() == Phase::Idle
                &&& !s.readable()
                &&& s.writable()
                &&& s.in_bytes() == Seq::<u8>::empty()
                &&& s.out_bytes() == Seq::<u8>::empty()
                &&& s.calls() == Seq::<Call>::empty()
                &&& s.bytes_read() == Seq::<u8>::empty()
                &&& s.bytes_written() == Seq::<u8>::empty()
            },
    {
        match P::accepted(conn, scope) {
            Some(p) => Some(Stream {
                trans: Transport::new(),
                readable: false,
                writable: true,
                phase: Phase::Idle,
                protocol: Some(p),
                log: Ghost(Seq::empty()),
                read_log: Ghost(Seq::empty()),
                written_log: Ghost(Seq::empty()),
            }),
            None => None,
        }
    }

    /// What comes after a write drain, or after the first one was skipped:
    /// the read drain if readability is latched, else the activation's close.
    fn after_first_drain(&mut self) -> (r: Step)
        requires
            old(self).is_live(),
            old(self).out_bytes().len() == 0 || !old(self).writable(),
        ensures
            final(self).trans == old(self).trans,
            final(self).readable == old(self).readable,
            final(self).writable == old(self).writable,
            final(self).protocol == old(self).protocol,
            final(self).log == old(self).log,
            final(self).read_log == old(self).read_log,
            final(self).written_log == old(self).written_log,
            old(self).readable() ==> r == Step::Read && final(self).phase() == Phase::Reading,
            !old(self).readable() ==> r == Step::Yield && final(self).phase() == Phase::Idle,
    {
        if self.readable {
            self.phase = Phase::Reading;
            Step::Read
        } else {
            self.phase = Phase::Idle;
            Step::Yield
        }
    }

    /// The close of an activation: flush what is left if the socket is
    /// writable, else hand control back to the reactor.
    fn finish(&mut self) -> (r: Step)
        requires
            old(self).is_live(),
            !old(self).readable(),
        ensures
            final(self).trans == old(self).trans,
            final(self).readable == old(self).readable,
            final(self).writable == old(self).writable,
            final(self).protocol == old(self).protocol,
            final(self).log == old(self).log,
            final(self).read_log == old(self).read_log,
            final(self).written_log == old(self).written_log,
            old(self).writable() && old(self).out_bytes().len() > 0 ==> r == Step::Write
                && final(self).phase() == Phase::SecondWrite,
            !(old(self).writable() && old(self).out_bytes().len() > 0) ==> r == Step::Yield
                && final(self).phase() == Phase::Idle,
    {
        if self.writable && self.trans.out_len() > 0 {
            self.phase = Phase::SecondWrite;
            Step::Write
        } else {
            self.phase = Phase::Idle;
            Step::Yield
        }
    }

    /// Starts an activation for a readiness notification. Signalled
    /// directions set their latches; an unsignalled one leaves its latch as
    /// it was. Pending output is written first if writability was signalled,
    /// then the socket is read if readability was.
    pub fn ready(&mut self, readable: bool, writable: bool) -> (r: Step)
        requires
            old(self).wf(),
            old(self).is_live(),
            old(self).phase() == Phase::Idle,
        ensures
            final(self).wf(),
            final(self).is_live(),
            final(self).calls() == old(self).calls(),
            final(self).in_bytes() == old(self).in_bytes(),
            final(self).out_bytes() == old(self).out_bytes(),
            final(self).readable() == readable,
            final(self).writable() == (old(self).writable() || writable),
            writable && old(self).out_bytes().len() > 0 ==> r == Step::Write
                && final(self).phase() == Phase::FirstWrite,
            !(writable && old(self).out_bytes().len() > 0) && readable ==> r == Step::Read
                && final(self).phase() == Phase::Reading,
            !(writable && old(self).out_bytes().len() > 0) && !readable ==> r == Step::Yield
                && final(self).phase() == Phase::Idle,
            !readable && !writable ==> *final(self) == *old(self),
    {
        if readable {
            self.readable = true;
        }
        if writable {
            self.writable = true;
        }
        if writable && self.trans.out_len() > 0 {
            self.phase = Phase::FirstWrite;
            Step::Write
        } else {
            self.after_first_drain()
        }
    }

    /// Hands the protocol state to the caller for one callback.
    fn take_protocol(&mut self) -> (p: P)
        requires
            old(self).is_live(),
        ensures
            old(self).protocol == Some(p),
            final(self).protocol is None,
            final(self).trans == old(self).trans,
            final(self).readable == old(self).readable,
            final(self).writable == old(self).writable,
            final(self).phase == old(self).phase,
            final(self).log == old(self).log,
            final(self).read_log == old(self).read_log,
            final(self).written_log == old(self).written_log,
    {
        self.protocol.take().unwrap()
    }

    /// Takes back what a callback returned, and records the callback.
    fn settle(&mut self, outcome: Async<P, ()>, callback: Ghost<Callback>, seen: Ghost<(Seq<u8>, Seq<u8>)>)
        requires
            old(self).protocol is None,
            all_echo(old(self).calls()) ==> old(self).bytes_written() + seen@.1 + seen@.0 == old(self).bytes_read(),
        ensures
            all_echo(final(self).calls()) ==> final(self).bytes_written() + final(self).out_bytes()
                + final(self).in_bytes() == final(self).bytes_read(),
            final(self).is_live() == (outcome is Continue),
            final(self).calls() == old(self).calls().push(
                Call {
                    callback: callback@,
                    input: seen@.0,
                    output: seen@.1,
                    input_after: old(self).in_bytes(),
                    output_after: old(self).out_bytes(),
                    stopped: outcome is Stop,
                },
            ),
            final(self).trans == old(self).trans,
            final(self).readable == old(self).readable,
            final(self).writable == old(self).writable,
            final(self).phase == old(self).phase,
            final(self).read_log == old(self).read_log,
            final(self).written_log == old(self).written_log,
    {
        let stopped = match outcome {
            Async::Continue(p, _) => {
                self.protocol = Some(p);
                false
            },
            Async::Stop => true,
        };
        let ghost c = Call {
            callback: callback@,
            input: seen@.0,
            output: seen@.1,
            input_after: self.in_bytes(),
            output_after: self.out_bytes(),
            stopped,
        };
        let ghost before = self.log@;
        self.log = Ghost(self.log@.push(c));
        proof {
            if all_echo(self.calls()) {
                lemma_echo_prefix(before, c);
                lemma_echo_keeps_order(self.written_log@, self.read_log@, c);
            }
        }
    }

    /// Ends the connection with `eof_received` or `error_happened`.
    fn end<C>(&mut self, err: Option<std::io::Error>, scope: &mut C)
        where P: Protocol<C>,
        requires
            old(self).is_live(),
            all_echo(old(self).calls()) ==> old(self).bytes_written() + old(self).out_bytes()
                + old(self).in_bytes() == old(self).bytes_read(),
        ensures
            all_echo(final(self).calls()) ==> final(self).bytes_written() + final(self).out_bytes()
                + final(self).in_bytes() == final(self).bytes_read(),
            !final(self).is_live(),
            final(self).calls() == old(self).calls().push(
                Call {
                    callback: if err is Some { Callback::ErrorHappened } else { Callback::EofReceived },
                    input: old(self).in_bytes(),
                    output: old(self).out_bytes(),
                    input_after: old(self).in_bytes(),
                    output_after: old(self).out_bytes(),
                    stopped: true,
                },
            ),
            final(self).trans == old(self).trans,
            final(self).readable == old(self).readable,
            final(self).writable == old(self).writable,
            final(self).phase == old(self).phase,
            final(self).read_log == old(self).read_log,
            final(self).written_log == old(self).written_log,
    {
        let p = self.take_protocol();
        let ghost callback = if err is Some { Callback::ErrorHappened } else { Callback::EofReceived };
        match err {
            Some(e) => p.error_happened(e, scope),
            None => p.eof_received(scope),
        }
        let ghost c = Call {
            callback,
            input: self.in_bytes(),
            output: self.out_bytes(),
            input_after: self.in_bytes(),
            output_after: self.out_bytes(),
            stopped: true,
        };
        let ghost before = self.log@;
        self.log = Ghost(self.log@.push(c));
        proof {
            if all_echo(self.calls()) {
                lemma_echo_prefix(before, c);
            }
        }
    }

    /// Takes the outcome of one write of the output buffer, within a write
    /// drain. `Done(n)` with `n > 0` drops the `n` bytes sent and makes one
    /// `data_transferred` call; the drain goes on while bytes are left.
    /// `WouldBlock` clears the writable latch and ends the drain; `Interrupted`
    /// asks for the same write again. `Done(0)` is the peer's close and ends
    /// the connection through `eof_received`, a hard error through
    /// `error_happened`.
    pub fn sent<C>(&mut self, result: Io<usize>, scope: &mut C) -> (r: Step)
        where P: Protocol<C>,
        requires
            old(self).wf(),
            old(self).is_live(),
            old(self).phase() == Phase::FirstWrite || old(self).phase() == Phase::SecondWrite,
            result matches Io::Done(n) ==> n <= old(self).out_bytes().len(),
        ensures
            final(self).wf(),
            final(self).bytes_read() == old(self).bytes_read(),
            final(self).bytes_written() == match result {
                Io::Done(n) => old(self).bytes_written() + old(self).out_bytes().take(n as int),
                _ => old(self).bytes_written(),
            },
            final(self).is_live() == (r != Step::Stop),
            r == Step::Yield ==> final(self).phase() == Phase::Idle,
            match result {
                Io::Done(n) => if n == 0 {
                    &&& r == Step::Stop
                    &&& final(self).calls() == old(self).calls().push(
                        Call {
                            callback: Callback::EofReceived,
                            input: old(self).in_bytes(),
                            output: old(self).out_bytes(),
                            input_after: old(self).in_bytes(),
                            output_after: old(self).out_bytes(),
                            stopped: true,
                        },
                    )
                } else {
                    &&& final(self).calls() == old(self).calls().push(
                        Call {
                            callback: Callback::DataTransferred,
                            input: old(self).in_bytes(),
                            output: old(self).out_bytes().skip(n as int),
                            input_after: final(self).in_bytes(),
                            output_after: final(self).out_bytes(),
                            stopped: r == Step::Stop,
                        },
                    )
                    &&& r != Step::Stop ==> {
                        &&& final(self).readable() == old(self).readable()
                        &&& final(self).writable() == old(self).writable()
                        &&& r == if final(self).out_bytes().len() > 0 {
                            Step::Write
                        } else if old(self).phase() == Phase::FirstWrite && old(self).readable() {
                            Step::Read
                        } else {
                            Step::Yield
                        }
                    }
                },
                Io::WouldBlock => {
                    &&& !final(self).writable()
                    &&& final(self).readable() == old(self).readable()
                    &&& final(self).calls() == old(self).calls()
                    &&& final(self).in_bytes() == old(self).in_bytes()
                    &&& final(self).out_bytes() == old(self).out_bytes()
                    &&& r == if old(self).phase() == Phase::FirstWrite && old(self).readable() {
                        Step::Read
                    } else {
                        Step::Yield
                    }
                },
                Io::Interrupted => r == Step::Write && *final(self) == *old(self),
                Io::Failed(_) => {
                    &&& r == Step::Stop
                    &&& final(self).calls() == old(self).calls().push(
                        Call {
                            callback: Callback::ErrorHappened,
                            input: old(self).in_bytes(),
                            output: old(self).out_bytes(),
                            input_after: old(self).in_bytes(),
                            output_after: old(self).out_bytes(),
                            stopped: true,
                        },
                    )
                },
            },
    {
        match result {
            Io::Done(n) => {
                if n == 0 {
                    self.end(None, scope);
                    return Step::Stop;
                }
                let ghost (w0, out0) = (self.written_log@, self.out_bytes());
                self.written_log = Ghost(self.written_log@ + out0.take(n as int));
                self.trans.drop_output(n);
                proof {
                    assert(w0 + out0.take(n as int) + out0.skip(n as int) + self.in_bytes()
                        =~= w0 + out0 + self.in_bytes());
                }
                let ghost seen = (self.in_bytes(), self.out_bytes());
                let p = self.take_protocol();
                let outcome = p.data_transferred(&mut self.trans, scope);
                self.settle(outcome, Ghost(Callback::DataTransferred), Ghost(seen));
                if self.protocol.is_none() {
                    Step::Stop
                } else if self.trans.out_len() > 0 {
                    Step::Write
                } else if self.phase == Phase::FirstWrite {
                    self.after_first_drain()
                } else {
                    self.phase = Phase::Idle;
                    Step::Yield
                }
            },
            Io::WouldBlock => {
                self.writable = false;
                if self.phase == Phase::FirstWrite {
                    self.after_first_drain()
                } else {
                    self.phase = Phase::Idle;
                    Step::Yield
                }
            },
            Io::Interrupted => Step::Write,
            Io::Failed(e) => {
                self.end(Some(e), scope);
                Step::Stop
            },
        }
    }

    /// Takes the outcome of one read from the socket, within the read drain.
    /// Bytes read are appended to the input buffer and make one
    /// `data_received` call; the drain goes on. `WouldBlock` clears the
    /// readable latch and ends the drain: pending output is then flushed if
    /// the socket is writable. `Interrupted` asks for the same read again. An
    /// empty read is the peer's close and ends the connection through
    /// `eof_received`, a hard error through `error_happened`.
    pub fn received<C>(&mut self, result: Io<Vec<u8>>, scope: &mut C) -> (r: Step)
        where P: Protocol<C>,
        requires
            old(self).wf(),
            old(self).is_live(),
            old(self).phase() == Phase::Reading,
        ensures
            final(self).wf(),
            final(self).bytes_read() == match result {
                Io::Done(data) => old(self).bytes_read() + data@,
                _ => old(self).bytes_read(),
            },
            final(self).bytes_written() == old(self).bytes_written(),
            final(self).is_live() == (r != Step::Stop),
            r == Step::Yield ==> final(self).phase() == Phase::Idle,
            match result {
                Io::Done(data) => if data@.len() == 0 {
                    &&& r == Step::Stop
                    &&& final(self).calls() == old(self).calls().push(
                        Call {
                            callback: Callback::EofReceived,
                            input: old(self).in_bytes(),
                            output: old(self).out_bytes(),
                            input_after: old(self).in_bytes(),
                            output_after: old(self).out_bytes(),
                            stopped: true,
                        },
                    )
                } else {
                    &&& final(self).calls() == old(self).calls().push(
                        Call {
                            callback: Callback::DataReceived,
                            input: old(self).in_bytes() + data@,
                            output: old(self).out_bytes(),
                            input_after: final(self).in_bytes(),
                            output_after: final(self).out_bytes(),
                            stopped: r == Step::Stop,
                        },
                    )
                    &&& r != Step::Stop ==> {
                        &&& r == Step::Read
                        &&& final(self).phase() == Phase::Reading
                        &&& final(self).readable() == old(self).readable()
                        &&& final(self).writable() == old(self).writable()
                    }
                },
                Io::WouldBlock => {
                    &&& !final(self).readable()
                    &&& final(self).writable() == old(self).writable()
                    &&& final(self).calls() == old(self).calls()
                    &&& final(self).in_bytes() == old(self).in_bytes()
                    &&& final(self).out_bytes() == old(self).out_bytes()
                    &&& r == if old(self).writable() && old(self).out_bytes().len() > 0 {
                        Step::Write
                    } else {
                        Step::Yield
                    }
                },
                Io::Interrupted => r == Step::Read && *final(self) == *old(self),
                Io::Failed(_) => {
                    &&& r == Step::Stop
                    &&& final(self).calls() == old(self).calls().push(
                        Call {
                            callback: Callback::ErrorHappened,
                            input: old(self).in_bytes(),
                            output: old(self).out_bytes(),
                            input_after: old(self).in_bytes(),
                            output_after: old(self).out_bytes(),
                            stopped: true,
                        },
                    )
                },
            },
    {
        match result {
            Io::Done(data) => {
                if data.len() == 0 {
                    self.end(None, scope);
                    return Step::Stop;
                }
                let ghost (w0, in0) = (self.written_log@, self.in_bytes());
                self.read_log = Ghost(self.read_log@ + data@);
                self.trans.push_input(data.as_slice());
                proof {
                    assert(w0 + self.out_bytes() + (in0 + data@) =~= w0 + self.out_bytes() + in0 + data@);
                }
                let ghost seen = (self.in_bytes(), self.out_bytes());
                let p = self.take_protocol();
                let outcome = p.data_received(&mut self.trans, scope);
                self.settle(outcome, Ghost(Callback::DataReceived), Ghost(seen));
                if self.protocol.is_none() {
                    Step::Stop
                } else {
                    Step::Read
                }
            },
            Io::WouldBlock => {
                self.readable = false;
                self.finish()
            },
            Io::Interrupted => Step::Read,
            Io::Failed(e) => {
                self.end(Some(e), scope);
                Step::Stop
            },
        }
    }

    /// A timer of this connection fired: the protocol's `timeout` callback
    /// runs, and the buffers and latches stay as they are. Output that it
    /// leaves waits for the next activation.
    pub fn timeout<C>(&mut self, scope: &mut C) -> (r: Step)
        where P: Protocol<C>,
        requires
            old(self).wf(),
            old(self).is_live(),
            old(self).phase() == Phase::Idle,
        ensures
            final(self).wf(),
            r == Step::Yield || r == Step::Stop,
            final(self).is_live() == (r == Step::Yield),
            final(self).calls() == old(self).calls().push(
                Call {
                    callback: Callback::Timeout,
                    input: old(self).in_bytes(),
                    output: old(self).out_bytes(),
                    input_after: old(self).in_bytes(),
                    output_after: old(self).out_bytes(),
                    stopped: r == Step::Stop,
                },
            ),
            final(self).in_bytes() == old(self).in_bytes(),
            final(self).out_bytes() == old(self).out_bytes(),
            final(self).readable() == old(self).readable(),
            final(self).writable() == old(self).writable(),
            final(self).phase() == Phase::Idle,
            final(self).bytes_read() == old(self).bytes_read(),
            final(self).bytes_written() == old(self).bytes_written(),
    {
        let ghost seen = (self.in_bytes(), self.out_bytes());
        let p = self.take_protocol();
        let outcome = p.timeout(scope);
        self.settle(outcome, Ghost(Callback::Timeout), Ghost(seen));
        if self.protocol.is_none() {
            Step::Stop
        } else {
            Step::Yield
        }
    }

    /// Another part of the program nudged this connection: the protocol's
    /// `wakeup` callback runs, and the buffers and latches stay as they are.
    pub fn wakeup<C>(&mut self, scope: &mut C) -> (r: Step)
        where P: Protocol<C>,
        requires
            old(self).wf(),
            old(self).is_live(),
            old(self).phase() == Phase::Idle,
        ensures
            final(self).wf(),
            r == Step::Yield || r == Step::Stop,
            final(self).is_live() == (r == Step::Yield),
            final(self).calls() == old(self).calls().push(
                Call {
                    callback: Callback::Wakeup,
                    input: old(self).in_bytes(),
                    output: old(self).out_bytes(),
                    input_after: old(self).in_bytes(),
                    output_after: old(self).out_bytes(),
                    stopped: r == Step::Stop,
                },
            ),
            final(self).in_bytes() == old(self).in_bytes(),
            final(self).out_bytes() == old(self).out_bytes(),
            final(self).readable() == old(self).readable(),
            final(self).writable() == old(self).writable(),
            final(self).phase() == Phase::Idle,
            final(self).bytes_read() == old(self).bytes_read(),
            final(self).bytes_written() == old(self).bytes_written(),
    {
        let ghost seen = (self.in_bytes(), self.out_bytes());
        let p = self.take_protocol();
        let outcome = p.wakeup(scope);
        self.settle(outcome, Ghost(Callback::Wakeup), Ghost(seen));
        if self.protocol.is_none() {
            Step::Stop
        } else {
            Step::Yield
        }
    }

    /// Whether the connection is still live.
    pub fn is_active(&self) -> (r: bool)
        ensures
            r == self.is_live(),
    {
        self.protocol.is_some()
    }

    /// Where the connection stands within an activation.
    pub fn current_phase(&self) -> (r: Phase)
        ensures
            r == self.phase(),
    {
        self.phase
    }

    /// The readable latch.
    pub fn is_readable(&self) -> (r: bool)
        ensures
            r == self.readable(),
    {
        self.readable
    }

    /// The writable latch.
    pub fn is_writable(&self) -> (r: bool)
        ensures
            r == self.writable(),
    {
        self.writable
    }

    /// The input buffer: bytes read and not yet consumed by the protocol.
    pub fn input_buf(&self) -> (r: &netbuf::Buf)
        ensures
            buf_bytes(*r) == self.in_bytes(),
    {
        self.trans.input_ref()
    }

    /// The output buffer: bytes that wait to be written to the socket.
    pub fn output_buf(&self) -> (r: &netbuf::Buf)
        ensures
            buf_bytes(*r) == self.out_bytes(),
    {
        self.trans.output_ref()
    }
}

} // verus!
