use std::io::{Error, ErrorKind};

use netbuf::Buf;
use rotor_stream::{Async, Io, Phase, Protocol, Step, Stream, Transport};

/// What the callbacks saw, in order.
type Events = Vec<String>;

fn bytes_of(buf: &Buf) -> Vec<u8> {
    buf[..].to_vec()
}

/// Copies all input to the output.
struct Echo;

impl Protocol<Events> for Echo {
    fn accepted<S>(_conn: &mut S, _scope: &mut Events) -> Option<Self> {
        Some(Echo)
    }
    fn data_received(self, trans: &mut Transport, scope: &mut Events) -> Async<Self, ()> {
        let data = bytes_of(trans.input());
        scope.push(format!("received {}", String::from_utf8_lossy(&data)));
        let n = data.len();
        trans.input().consume(n);
        trans.output().extend(&data);
        Async::Continue(self, ())
    }
    fn data_transferred(self, _trans: &mut Transport, scope: &mut Events) -> Async<Self, ()> {
        scope.push("transferred".to_string());
        Async::Continue(self, ())
    }
    fn error_happened(self, _err: Error, scope: &mut Events) {
        scope.push("error".to_string());
    }
    fn eof_received(self, scope: &mut Events) {
        scope.push("eof".to_string());
    }
    fn timeout(self, scope: &mut Events) -> Async<Self, ()> {
        scope.push("timeout".to_string());
        Async::Continue(self, ())
    }
    fn wakeup(self, scope: &mut Events) -> Async<Self, ()> {
        scope.push("wakeup".to_string());
        Async::Continue(self, ())
    }
}

const MIB: usize = 1 << 20;

/// Queues one MiB for every read.
struct Flood;

impl Protocol<Events> for Flood {
    fn accepted<S>(_conn: &mut S, _scope: &mut Events) -> Option<Self> {
        Some(Flood)
    }
    fn data_received(self, trans: &mut Transport, scope: &mut Events) -> Async<Self, ()> {
        scope.push("received".to_string());
        let n = trans.input().len();
        trans.input().consume(n);
        trans.output().extend(&vec![7u8; MIB]);
        Async::Continue(self, ())
    }
    fn data_transferred(self, _trans: &mut Transport, scope: &mut Events) -> Async<Self, ()> {
        scope.push("transferred".to_string());
        Async::Continue(self, ())
    }
    fn error_happened(self, _err: Error, scope: &mut Events) {
        scope.push("error".to_string());
    }
    fn eof_received(self, scope: &mut Events) {
        scope.push("eof".to_string());
    }
}

/// Queues a reply, then stops at the first data.
struct Quitter;

impl Protocol<Events> for Quitter {
    fn accepted<S>(_conn: &mut S, _scope: &mut Events) -> Option<Self> {
        Some(Quitter)
    }
    fn data_received(self, trans: &mut Transport, scope: &mut Events) -> Async<Self, ()> {
        scope.push("received".to_string());
        trans.output().extend(b"bye");
        Async::Stop
    }
    fn timeout(self, scope: &mut Events) -> Async<Self, ()> {
        scope.push("timeout".to_string());
        Async::Stop
    }
}

/// Refuses every connection.
struct Refuser;

impl Protocol<Events> for Refuser {
    fn accepted<S>(_conn: &mut S, scope: &mut Events) -> Option<Self> {
        scope.push("refused".to_string());
        None
    }
    fn data_received(self, _trans: &mut Transport, _scope: &mut Events) -> Async<Self, ()> {
        Async::Continue(self, ())
    }
}

/// Keeps all input and uses the default callbacks.
struct Keeper;

impl Protocol<Events> for Keeper {
    fn accepted<S>(_conn: &mut S, _scope: &mut Events) -> Option<Self> {
        Some(Keeper)
    }
    fn data_received(self, _trans: &mut Transport, _scope: &mut Events) -> Async<Self, ()> {
        Async::Continue(self, ())
    }
}

fn accept<P: Protocol<Events>>(scope: &mut Events) -> Stream<P> {
    let mut socket = ();
    match Stream::<P>::accept(&mut socket, scope) {
        Some(s) => s,
        None => panic!("the protocol refused the connection"),
    }
}

fn failure() -> Io<usize> {
    Io::Failed(Error::new(ErrorKind::ConnectionReset, "reset"))
}

#[test]
fn accepted_connection_starts_idle_and_writable() {
    let mut ev = Events::new();
    let s: Stream<Echo> = accept(&mut ev);
    assert!(s.is_active());
    assert_eq!(s.current_phase(), Phase::Idle);
    assert!(s.is_writable());
    assert!(!s.is_readable());
    assert_eq!(s.input_buf().len(), 0);
    assert_eq!(s.output_buf().len(), 0);
    assert!(ev.is_empty());
}

#[test]
fn refused_connection_is_none() {
    let mut ev = Events::new();
    let mut socket = ();
    assert!(Stream::<Refuser>::accept(&mut socket, &mut ev).is_none());
    assert_eq!(ev, vec!["refused"]);
}

#[test]
fn echo_returns_what_the_peer_sent() {
    let mut ev = Events::new();
    let mut s: Stream<Echo> = accept(&mut ev);
    assert_eq!(s.ready(true, true), Step::Read);
    assert_eq!(s.received(Io::Done(b"hello".to_vec()), &mut ev), Step::Read);
    assert_eq!(ev, vec!["received hello"]);
    assert_eq!(s.input_buf().len(), 0);
    assert_eq!(s.received(Io::WouldBlock, &mut ev), Step::Write);
    assert_eq!(s.current_phase(), Phase::SecondWrite);
    let peer = bytes_of(s.output_buf());
    assert_eq!(peer, b"hello".to_vec());
    assert_eq!(s.sent(Io::Done(5), &mut ev), Step::Yield);
    assert_eq!(ev, vec!["received hello", "transferred"]);
    assert!(s.is_active());
    assert_eq!(s.output_buf().len(), 0);
    assert!(!s.is_readable());
}

#[test]
fn immediate_close_ends_with_eof() {
    let mut ev = Events::new();
    let mut s: Stream<Echo> = accept(&mut ev);
    assert_eq!(s.ready(true, false), Step::Read);
    assert_eq!(s.received(Io::Done(Vec::new()), &mut ev), Step::Stop);
    assert_eq!(ev, vec!["eof"]);
    assert!(!s.is_active());
}

#[test]
fn back_pressure_keeps_the_rest_for_the_next_edge() {
    let chunk: usize = 64 << 10;
    let mut ev = Events::new();
    let mut s: Stream<Flood> = accept(&mut ev);
    assert_eq!(s.ready(true, true), Step::Read);
    assert_eq!(s.received(Io::Done(b"go".to_vec()), &mut ev), Step::Read);
    assert_eq!(s.received(Io::WouldBlock, &mut ev), Step::Write);
    assert_eq!(s.sent(Io::Done(chunk), &mut ev), Step::Write);
    assert_eq!(s.sent(Io::WouldBlock, &mut ev), Step::Yield);
    assert!(!s.is_writable());
    assert!(s.is_active());
    assert_eq!(s.output_buf().len(), MIB - chunk);
    // the next writability edge resumes the drain
    assert_eq!(s.ready(false, true), Step::Write);
    assert_eq!(s.current_phase(), Phase::FirstWrite);
    let mut left = MIB - chunk;
    while left > chunk {
        assert_eq!(s.sent(Io::Done(chunk), &mut ev), Step::Write);
        left -= chunk;
    }
    assert_eq!(s.sent(Io::Done(left), &mut ev), Step::Yield);
    assert_eq!(s.output_buf().len(), 0);
    assert!(s.is_writable());
    assert_eq!(ev.iter().filter(|e| *e == "transferred").count(), MIB / chunk);
}

#[test]
fn interrupted_reads_are_retried() {
    let mut ev = Events::new();
    let mut s: Stream<Echo> = accept(&mut ev);
    s.ready(false, false);
    assert_eq!(s.ready(true, false), Step::Read);
    assert_eq!(s.received(Io::Interrupted, &mut ev), Step::Read);
    assert_eq!(s.received(Io::Interrupted, &mut ev), Step::Read);
    assert!(ev.is_empty());
    assert_eq!(s.received(Io::Done(b"abc".to_vec()), &mut ev), Step::Read);
    assert_eq!(s.received(Io::WouldBlock, &mut ev), Step::Write);
    assert_eq!(ev, vec!["received abc"]);
    assert!(!s.is_readable());
}

#[test]
fn error_mid_write_ends_after_one_transfer() {
    let mut ev = Events::new();
    let mut s: Stream<Echo> = accept(&mut ev);
    assert_eq!(s.ready(true, true), Step::Read);
    assert_eq!(s.received(Io::Done(b"0123456789abcdefghij".to_vec()), &mut ev), Step::Read);
    assert_eq!(s.received(Io::WouldBlock, &mut ev), Step::Write);
    assert_eq!(s.sent(Io::Done(10), &mut ev), Step::Write);
    assert_eq!(bytes_of(s.output_buf()), b"abcdefghij".to_vec());
    assert_eq!(s.sent(failure(), &mut ev), Step::Stop);
    assert_eq!(ev, vec!["received 0123456789abcdefghij", "transferred", "error"]);
    assert!(!s.is_active());
}

#[test]
fn protocol_stop_ends_the_activation() {
    let mut ev = Events::new();
    let mut s: Stream<Quitter> = accept(&mut ev);
    assert_eq!(s.ready(true, true), Step::Read);
    assert_eq!(s.received(Io::Done(b"x".to_vec()), &mut ev), Step::Stop);
    assert_eq!(ev, vec!["received"]);
    assert!(!s.is_active());
}

#[test]
fn ready_without_readiness_changes_nothing() {
    let mut ev = Events::new();
    let mut s: Stream<Echo> = accept(&mut ev);
    assert_eq!(s.ready(true, true), Step::Read);
    assert_eq!(s.received(Io::Done(b"abc".to_vec()), &mut ev), Step::Read);
    assert_eq!(s.received(Io::WouldBlock, &mut ev), Step::Write);
    assert_eq!(s.sent(Io::WouldBlock, &mut ev), Step::Yield);
    let before = bytes_of(s.output_buf());
    assert_eq!(s.ready(false, false), Step::Yield);
    assert_eq!(s.current_phase(), Phase::Idle);
    assert!(!s.is_writable());
    assert!(!s.is_readable());
    assert_eq!(bytes_of(s.output_buf()), before);
    assert_eq!(ev, vec!["received abc"]);
}

#[test]
fn writability_with_empty_output_only_sets_the_latch() {
    let mut ev = Events::new();
    let mut s: Stream<Echo> = accept(&mut ev);
    assert_eq!(s.ready(true, true), Step::Read);
    assert_eq!(s.received(Io::Done(b"ab".to_vec()), &mut ev), Step::Read);
    assert_eq!(s.received(Io::WouldBlock, &mut ev), Step::Write);
    assert_eq!(s.sent(Io::WouldBlock, &mut ev), Step::Yield);
    assert!(!s.is_writable());
    assert_eq!(s.ready(false, true), Step::Write);
    assert_eq!(s.sent(Io::Done(2), &mut ev), Step::Yield);
    let calls = ev.len();
    assert_eq!(s.ready(false, true), Step::Yield);
    assert!(s.is_writable());
    assert_eq!(ev.len(), calls);
}

#[test]
fn first_write_drain_precedes_the_read() {
    let mut ev = Events::new();
    let mut s: Stream<Echo> = accept(&mut ev);
    assert_eq!(s.ready(true, true), Step::Read);
    assert_eq!(s.received(Io::Done(b"one".to_vec()), &mut ev), Step::Read);
    assert_eq!(s.received(Io::WouldBlock, &mut ev), Step::Write);
    assert_eq!(s.sent(Io::WouldBlock, &mut ev), Step::Yield);
    assert_eq!(s.ready(true, true), Step::Write);
    assert_eq!(s.current_phase(), Phase::FirstWrite);
    assert_eq!(s.sent(Io::Done(3), &mut ev), Step::Read);
    assert_eq!(s.received(Io::Done(b"two".to_vec()), &mut ev), Step::Read);
    assert_eq!(s.received(Io::WouldBlock, &mut ev), Step::Write);
    assert_eq!(s.current_phase(), Phase::SecondWrite);
    assert_eq!(bytes_of(s.output_buf()), b"two".to_vec());
    assert_eq!(s.sent(Io::Interrupted, &mut ev), Step::Write);
    assert_eq!(s.sent(Io::Done(1), &mut ev), Step::Write);
    assert_eq!(bytes_of(s.output_buf()), b"wo".to_vec());
    assert_eq!(s.sent(Io::Done(2), &mut ev), Step::Yield);
    assert_eq!(ev, vec!["received one", "transferred", "received two", "transferred", "transferred"]);
}

#[test]
fn each_read_makes_one_data_received() {
    let mut ev = Events::new();
    let mut s: Stream<Flood> = accept(&mut ev);
    assert_eq!(s.ready(true, false), Step::Read);
    for _ in 0..3 {
        assert_eq!(s.received(Io::Done(b"z".to_vec()), &mut ev), Step::Read);
    }
    assert_eq!(ev, vec!["received", "received", "received"]);
    assert_eq!(s.received(Io::WouldBlock, &mut ev), Step::Write);
    assert_eq!(s.output_buf().len(), 3 * MIB);
}

#[test]
fn input_is_kept_until_consumed() {
    let mut ev = Events::new();
    let mut s: Stream<Keeper> = accept(&mut ev);
    assert_eq!(s.ready(true, false), Step::Read);
    assert_eq!(s.received(Io::Done(b"ab".to_vec()), &mut ev), Step::Read);
    assert_eq!(s.received(Io::Done(b"cd".to_vec()), &mut ev), Step::Read);
    assert_eq!(bytes_of(s.input_buf()), b"abcd".to_vec());
    assert_eq!(s.received(Io::WouldBlock, &mut ev), Step::Yield);
}

#[test]
fn write_of_zero_bytes_is_eof() {
    let mut ev = Events::new();
    let mut s: Stream<Echo> = accept(&mut ev);
    assert_eq!(s.ready(true, true), Step::Read);
    assert_eq!(s.received(Io::Done(b"q".to_vec()), &mut ev), Step::Read);
    assert_eq!(s.received(Io::WouldBlock, &mut ev), Step::Write);
    assert_eq!(s.sent(Io::Done(0), &mut ev), Step::Stop);
    assert_eq!(ev, vec!["received q", "eof"]);
    assert!(!s.is_active());
}

#[test]
fn read_error_ends_with_error_happened() {
    let mut ev = Events::new();
    let mut s: Stream<Echo> = accept(&mut ev);
    assert_eq!(s.ready(true, false), Step::Read);
    let err = Io::Failed(Error::new(ErrorKind::Other, "broken"));
    assert_eq!(s.received(err, &mut ev), Step::Stop);
    assert_eq!(ev, vec!["error"]);
    assert!(!s.is_active());
}

#[test]
fn timeout_and_wakeup_reach_the_protocol() {
    let mut ev = Events::new();
    let mut s: Stream<Echo> = accept(&mut ev);
    assert_eq!(s.timeout(&mut ev), Step::Yield);
    assert_eq!(s.wakeup(&mut ev), Step::Yield);
    assert_eq!(ev, vec!["timeout", "wakeup"]);
    assert!(s.is_active());
    assert_eq!(s.current_phase(), Phase::Idle);
}

#[test]
fn timeout_stop_ends_the_connection() {
    let mut ev = Events::new();
    let mut s: Stream<Quitter> = accept(&mut ev);
    assert_eq!(s.timeout(&mut ev), Step::Stop);
    assert!(!s.is_active());
}

#[test]
fn default_callbacks_continue() {
    let mut ev = Events::new();
    let mut s: Stream<Keeper> = accept(&mut ev);
    assert_eq!(s.timeout(&mut ev), Step::Yield);
    assert_eq!(s.wakeup(&mut ev), Step::Yield);
    assert!(s.is_active());
}

#[test]
fn timeout_holds_its_deadline() {
    let now = time::SteadyTime::now();
    let t = rotor_stream::Timeout(now);
    assert!(t.0 == now);
}
