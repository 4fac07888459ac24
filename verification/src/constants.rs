//! Numbers of the nanomsg C API (`nn.h` and the protocol headers).

use vstd::prelude::*;

verus! {

/// The scalability-protocols address family, passed to `nn_socket`.
pub const AF_SP: i32 = 1;

/// Level of the generic socket options.
pub const NN_SOL_SOCKET: i32 = 0;

pub const NN_LINGER: i32 = 1;
pub const NN_SNDBUF: i32 = 2;
pub const NN_RCVBUF: i32 = 3;
pub const NN_SNDTIMEO: i32 = 4;
pub const NN_RCVTIMEO: i32 = 5;
pub const NN_RECONNECT_IVL: i32 = 6;
pub const NN_RECONNECT_IVL_MAX: i32 = 7;
pub const NN_SNDPRIO: i32 = 8;
pub const NN_RCVPRIO: i32 = 9;
pub const NN_IPV4ONLY: i32 = 14;
pub const NN_SOCKET_NAME: i32 = 15;

/// Level of the TCP transport options.
pub const NN_TCP: i32 = -3;
pub const NN_TCP_NODELAY: i32 = 1;

pub const NN_PAIR: i32 = 16;
pub const NN_PUB: i32 = 32;
pub const NN_SUB: i32 = 33;
pub const NN_REQ: i32 = 48;
pub const NN_REP: i32 = 49;
pub const NN_PUSH: i32 = 80;
pub const NN_PULL: i32 = 81;
pub const NN_SURVEYOR: i32 = 98;
pub const NN_RESPONDENT: i32 = 99;
pub const NN_BUS: i32 = 112;

/// Options of the publish/subscribe protocol (level `NN_SUB`).
pub const NN_SUB_SUBSCRIBE: i32 = 1;
pub const NN_SUB_UNSUBSCRIBE: i32 = 2;

/// Option of the request/reply protocol (level `NN_REQ`).
pub const NN_REQ_RESEND_IVL: i32 = 1;

/// Option of the survey protocol (level `NN_SURVEYOR`).
pub const NN_SURVEYOR_DEADLINE: i32 = 1;

/// What nanomsg's calls return on failure.
pub const NN_FAILURE: i32 = -1;

} // verus!
