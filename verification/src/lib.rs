//! A verified model of a nanomsg socket binding: protocol selection,
//! socket options, and how the return codes of the nanomsg C API turn
//! into results.

pub mod constants;
pub mod duration;
pub mod format;
pub mod option;
pub mod protocol;
pub mod reader;
pub mod result;
pub mod socket;

pub use duration::Duration;
pub use option::{OptionValue, SocketOption};
pub use protocol::Protocol;
pub use reader::{ReadStep, ReadToEnd};
pub use result::{IoErrorKind, IoResult, NanoError, NanoErrorKind, NanoResult};
pub use socket::{Endpoint, OptionCall, Socket};
