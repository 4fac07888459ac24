//! The scalability protocols a socket can speak.

use vstd::prelude::*;
use crate::constants::{
    NN_BUS, NN_PAIR, NN_PUB, NN_PULL, NN_PUSH, NN_REP, NN_REQ, NN_RESPONDENT, NN_SUB, NN_SURVEYOR,
};

verus! {

/// Type-safe protocols that nanomsg uses. Each socket is bound to a
/// single protocol that has specific behaviour (such as only being able
/// to receive messages and not send them).
#[derive(Debug, Clone, Copy, PartialEq, Eq, Structural)]
pub enum Protocol {
    Req,
    Rep,
    Push,
    Pull,
    Pair,
    Bus,
    Pub,
    Sub,
    Surveyor,
    Respondent,
}

/// The protocol number that `nn_socket` takes for each protocol.
pub open spec fn protocol_number(p: Protocol) -> int {
    match p {
        Protocol::Req => NN_REQ as int,
        Protocol::Rep => NN_REP as int,
        Protocol::Push => NN_PUSH as int,
        Protocol::Pull => NN_PULL as int,
        Protocol::Pair => NN_PAIR as int,
        Protocol::Bus => NN_BUS as int,
        Protocol::Pub => NN_PUB as int,
        Protocol::Sub => NN_SUB as int,
        Protocol::Surveyor => NN_SURVEYOR as int,
        Protocol::Respondent => NN_RESPONDENT as int,
    }
}

impl Protocol {
    /// The protocol number handed to `nn_socket` for this protocol.
    pub fn to_raw(&self) -> (r: i32)
        ensures
            r == protocol_number(*self),
    {
        match self {
            Protocol::Req => NN_REQ,
            Protocol::Rep => NN_REP,
            Protocol::Push => NN_PUSH,
            Protocol::Pull => NN_PULL,
            Protocol::Pair => NN_PAIR,
            Protocol::Bus => NN_BUS,
            Protocol::Pub => NN_PUB,
            Protocol::Sub => NN_SUB,
            Protocol::Surveyor => NN_SURVEYOR,
            Protocol::Respondent => NN_RESPONDENT,
        }
    }
}

/// The numbers are nanomsg's: a protocol family times sixteen plus the
/// role in the family — pair 16; publish 32 and subscribe 33; request 48
/// and reply 49; push 80 and pull 81; surveyor 98 and respondent 99; bus
/// 112.
pub proof fn lemma_protocol_numbers_are_nanomsgs()
    ensures
        protocol_number(Protocol::Pair) == 16,
        protocol_number(Protocol::Pub) == 32,
        protocol_number(Protocol::Sub) == 33,
        protocol_number(Protocol::Req) == 48,
        protocol_number(Protocol::Rep) == 49,
        protocol_number(Protocol::Push) == 80,
        protocol_number(Protocol::Pull) == 81,
        protocol_number(Protocol::Surveyor) == 98,
        protocol_number(Protocol::Respondent) == 99,
        protocol_number(Protocol::Bus) == 112,
{
}

/// A socket is bound to a single protocol: distinct protocols are asked
/// of nanomsg by distinct protocol numbers.
pub proof fn lemma_protocol_numbers_distinct(p: Protocol, q: Protocol)
    ensures
        p != q ==> protocol_number(p) != protocol_number(q),
{
}

} // verus!
