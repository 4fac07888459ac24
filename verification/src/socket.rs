//! A nanomsg socket, seen through the return codes of the C API: what
//! each operation hands to nanomsg and what it makes of the answer.

use vstd::prelude::*;
use crate::constants::{AF_SP, NN_FAILURE};
use crate::option::{is_option_value, option_failure_text, option_level, option_name, OptionValue, SocketOption};
use crate::protocol::{protocol_number, Protocol};
use crate::result::{IoErrorKind, IoResult, NanoError, NanoErrorKind, NanoResult};

verus! {

/// A socket of nanomsg, known by the descriptor that `nn_socket` gave.
#[derive(Debug)]
pub struct Socket {
    socket: i32,
}

impl View for Socket {
    type V = int;

    /// The descriptor of the socket.
    closed spec fn view(&self) -> int {
        self.socket as int
    }
}

/// An endpoint that `nn_bind` made: its id, and the descriptor of the
/// socket it belongs to.
#[derive(Debug, Clone, Copy, PartialEq, Eq, Structural)]
pub struct Endpoint {
    pub value: i32,
    pub socket: i32,
}

impl Endpoint {
    pub fn new(value: i32, socket: i32) -> (e: Endpoint)
        ensures
            e.value == value,
            e.socket == socket,
    {
        Endpoint { value, socket }
    }
}

/// The arguments of one call of `nn_setsockopt`.
#[derive(Debug, Clone)]
pub struct OptionCall {
    pub socket: i32,
    pub level: i32,
    pub option: i32,
    pub value: OptionValue,
}

/// The arguments of the call of `nn_socket` that opens a socket of a
/// protocol: the address family and the protocol number.
pub fn open_call(protocol: Protocol) -> (r: (i32, i32))
    ensures
        r.0 == AF_SP,
        r.1 == protocol_number(protocol),
{
    (AF_SP, protocol.to_raw())
}

/// The words of a failure to open a socket.
pub open spec fn open_failure_text() -> Seq<char> {
    "Failed to create a new nanomsg socket. Error: {}"@
}

/// The words of a failure to bind or connect to an address.
pub open spec fn address_failure_text(addr: Seq<char>) -> Seq<char> {
    "Failed to find the socket to the address: "@ + addr
}

impl Socket {
    /// The socket that `nn_socket` answered with `ret`, or the failure
    /// to open one when it answered -1.
    pub fn from_raw(ret: i32) -> (r: NanoResult<Socket>)
        ensures
            ret != NN_FAILURE <==> r is Ok,
            r matches Ok(s) ==> s@ == ret,
            r matches Err(e) ==> e.kind == NanoErrorKind::SocketInitializationError
                && e.description@ == open_failure_text(),
    {
        if ret == NN_FAILURE {
            return Err(
                NanoError::new(
                    String::from_str("Failed to create a new nanomsg socket. Error: {}"),
                    NanoErrorKind::SocketInitializationError,
                ),
            );
        }
        Ok(Socket { socket: ret })
    }

    /// The descriptor of the socket.
    pub fn raw(&self) -> (r: i32)
        ensures
            r == self@,
    {
        self.socket
    }

    /// What binding to `addr` came to when `nn_bind` answered `ret`: the
    /// new endpoint, or the failure when it answered -1.
    pub fn bind_outcome(&self, addr: &str, ret: i32) -> (r: NanoResult<Endpoint>)
        ensures
            ret != NN_FAILURE <==> r is Ok,
            r matches Ok(e) ==> e.value == ret && e.socket == self@,
            r matches Err(e) ==> e.kind == NanoErrorKind::SocketBindError
                && e.description@ == address_failure_text(addr@),
    {
        if ret == NN_FAILURE {
            return Err(NanoError::new(address_failure_text_of(addr), NanoErrorKind::SocketBindError));
        }
        Ok(Endpoint::new(ret, self.socket))
    }

    /// What connecting to `addr` came to when `nn_connect` answered
    /// `ret`: nothing, or the failure when it answered -1.
    pub fn connect_outcome(&self, addr: &str, ret: i32) -> (r: NanoResult<()>)
        ensures
            ret != NN_FAILURE <==> r is Ok,
            r matches Err(e) ==> e.kind == NanoErrorKind::SocketBindError
                && e.description@ == address_failure_text(addr@),
    {
        if ret == NN_FAILURE {
            return Err(NanoError::new(address_failure_text_of(addr), NanoErrorKind::SocketBindError));
        }
        Ok(())
    }

    /// The arguments of the call of `nn_setsockopt` that sets `opt` on
    /// this socket.
    pub fn option_call(&self, opt: &SocketOption) -> (c: OptionCall)
        ensures
            c.socket == self@,
            c.level == option_level(*opt),
            c.option == option_name(*opt),
            is_option_value(*opt, c.value),
    {
        OptionCall { socket: self.socket, level: opt.level(), option: opt.name(), value: opt.value() }
    }

    /// What setting `opt` came to when `nn_setsockopt` answered `ret`:
    /// nothing, or the failure when it answered -1.
    pub fn option_outcome(&self, opt: &SocketOption, ret: i32) -> (r: NanoResult<()>)
        ensures
            ret != NN_FAILURE <==> r is Ok,
            r matches Err(e) ==> e.kind == NanoErrorKind::SocketOptionError
                && e.description@ == option_failure_text(*opt),
    {
        if ret == NN_FAILURE {
            return Err(NanoError::new(opt.failure_text(), NanoErrorKind::SocketOptionError));
        }
        Ok(())
    }
}

fn address_failure_text_of(addr: &str) -> (s: String)
    ensures
        s@ == address_failure_text(addr@),
{
    String::from_str("Failed to find the socket to the address: ").concat(addr)
}

/// What sending `len` bytes came to when `nn_send` answered `ret`: the
/// send succeeded only when all the bytes went.
pub fn send_outcome(len: usize, ret: i32) -> (r: IoResult<()>)
    ensures
        r is Ok <==> ret as int == len as int,
        r matches Err(e) ==> e == IoErrorKind::OtherIoError,
{
    if ret < 0 || ret as usize != len {
        return Err(IoErrorKind::OtherIoError);
    }
    Ok(())
}

/// What receiving came to when `nn_recv` answered `ret` with the message
/// `msg`: on -1 a failure, and `buf` as it was; otherwise the first bytes
/// of the message `msg` (the `ret` bytes that nanomsg handed over) fill
/// `buf` as far as both reach, the rest of `buf` stays as it was, and the
/// answer is the number of bytes placed in `buf`.
pub fn receive_into(buf: &mut [u8], msg: &[u8], ret: i32) -> (r: IoResult<usize>)
    ensures
        ret == NN_FAILURE <==> r is Err,
        r matches Err(e) ==> e == IoErrorKind::OtherIoError && final(buf)@ == old(buf)@,
        r matches Ok(n) ==> {
            &&& n == (if old(buf)@.len() < msg@.len() { old(buf)@.len() } else { msg@.len() })
            &&& n <= old(buf)@.len()
            &&& final(buf)@ == copied_prefix(old(buf)@, msg@)
            &&& final(buf)@.len() == old(buf)@.len()
            &&& final(buf)@.take(n as int) == msg@.take(n as int)
            &&& final(buf)@.skip(n as int) == old(buf)@.skip(n as int)
        },
{
    if ret == NN_FAILURE {
        return Err(IoErrorKind::OtherIoError);
    }
    let count: usize = if buf.len() < msg.len() { buf.len() } else { msg.len() };
    let mut i: usize = 0;
    while i < count
        invariant
            count <= buf@.len(),
            count <= msg@.len(),
            count == if old(buf)@.len() < msg@.len() { old(buf)@.len() } else { msg@.len() },
            i <= count,
            buf@.len() == old(buf)@.len(),
            forall|j: int| 0 <= j < i ==> buf@[j] == msg@[j],
            forall|j: int| i <= j < buf@.len() ==> buf@[j] == old(buf)@[j],
        decreases count - i,
    {
        buf[i] = msg[i];
        i = i + 1;
    }
    assert(buf@ =~= copied_prefix(old(buf)@, msg@));
    assert(buf@.take(count as int) =~= msg@.take(count as int));
    assert(buf@.skip(count as int) =~= old(buf)@.skip(count as int));
    Ok(count)
}

/// A buffer after the first bytes of a message were copied into it: as
/// long as it was, with the message's bytes where both reach.
pub open spec fn copied_prefix(buf: Seq<u8>, msg: Seq<u8>) -> Seq<u8> {
    Seq::new(buf.len(), |j: int| if j < msg.len() { msg[j] } else { buf[j] })
}

/// Receiving copies the whole message as far as the buffer reaches: for
/// buffers and messages of any length, every byte of the buffer below the
/// shorter of the two lengths is the message's byte there, every byte at
/// or beyond it is the buffer's old byte, and the length is kept.
pub proof fn lemma_receive_copies_message(buf: Seq<u8>, msg: Seq<u8>)
    ensures
        copied_prefix(buf, msg).len() == buf.len(),
        forall|j: int| 0 <= j < buf.len() && j < msg.len() ==> #[trigger] copied_prefix(buf, msg)[j] == msg[j],
        forall|j: int| msg.len() <= j < buf.len() ==> #[trigger] copied_prefix(buf, msg)[j] == buf[j],
        buf.len() <= msg.len() ==> copied_prefix(buf, msg) == msg.take(buf.len() as int),
        msg.len() <= buf.len() ==> copied_prefix(buf, msg) == msg + buf.skip(msg.len() as int),
{
    if buf.len() <= msg.len() {
        assert(copied_prefix(buf, msg) =~= msg.take(buf.len() as int));
    }
    if msg.len() <= buf.len() {
        assert(copied_prefix(buf, msg) =~= msg + buf.skip(msg.len() as int));
    }
}

} // verus!
