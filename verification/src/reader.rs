//! Reading a socket to the end: receive into a buffer of
//! `DEFAULT_BUF_SIZE` bytes until a message with any bytes in it comes,
//! giving up after `NO_PROGRESS_LIMIT` empty messages in a row.

use vstd::prelude::*;
use crate::result::{IoErrorKind, IoResult};

verus! {

/// The size of the buffer that reading to the end receives into.
pub const DEFAULT_BUF_SIZE: usize = 65536;

/// How many empty messages in a row reading to the end accepts before it
/// gives up.
pub const NO_PROGRESS_LIMIT: u32 = 1000;

/// The state of a read to the end: how many empty messages came so far.
#[derive(Debug)]
pub struct ReadToEnd {
    empty_reads: u32,
}

impl View for ReadToEnd {
    type V = nat;

    /// How many empty messages came so far.
    closed spec fn view(&self) -> nat {
        self.empty_reads as nat
    }
}

/// What to do after a receive.
#[derive(Debug)]
pub enum ReadStep {
    /// Receive again into the same buffer.
    Receive,
    /// The read is over; these are the bytes read.
    Done(Vec<u8>),
    /// The read failed.
    Failed(IoErrorKind),
}

/// The smaller of two numbers.
pub open spec fn min_nat(a: nat, b: nat) -> nat {
    if a < b {
        a
    } else {
        b
    }
}

/// The smaller of two numbers is one of them and no larger than either.
pub proof fn lemma_min_nat_is_smaller(a: nat, b: nat)
    ensures
        min_nat(a, b) <= a,
        min_nat(a, b) <= b,
        min_nat(a, b) == a || min_nat(a, b) == b,
{
}

impl ReadToEnd {
    /// A read to the end that has seen no message yet.
    pub fn new() -> (r: ReadToEnd)
        ensures
            r@ == 0,
    {
        ReadToEnd { empty_reads: 0 }
    }

    /// The next step after a receive into `buf` came to `read`: a failure
    /// ends the read with that failure; an empty message asks for another
    /// receive, unless it is the `NO_PROGRESS_LIMIT`-th in a row, which
    /// ends the read with `NoProgress`; a message of `n` bytes ends the
    /// read with the first `n` bytes of `buf` (all of it when `n` is
    /// larger).
    pub fn step(&mut self, read: IoResult<usize>, buf: &[u8]) -> (a: ReadStep)
        requires
            old(self)@ < NO_PROGRESS_LIMIT,
        ensures
            read matches Err(e) ==> a == ReadStep::Failed(e) && final(self)@ == old(self)@,
            read == IoResult::<usize>::Ok(0) ==> {
                &&& final(self)@ == old(self)@ + 1
                &&& old(self)@ + 1 < NO_PROGRESS_LIMIT ==> a is Receive
                &&& old(self)@ + 1 >= NO_PROGRESS_LIMIT ==> a == ReadStep::Failed(
                    IoErrorKind::NoProgress,
                )
            },
            (match read {
                Ok(n) => n > 0 ==> {
                    &&& final(self)@ == old(self)@
                    &&& a matches ReadStep::Done(v)
                    &&& v@ == buf@.take(min_nat(n as nat, buf@.len()) as int)
                    &&& n <= buf@.len() ==> v@.len() == n && v@ == buf@.take(n as int)
                    &&& n > buf@.len() ==> v@ == buf@
                },
                Err(_) => true,
            }),
            a is Receive ==> final(self)@ < NO_PROGRESS_LIMIT,
    {
        match read {
            Err(e) => ReadStep::Failed(e),
            Ok(n) => {
                if n == 0 {
                    self.empty_reads = self.empty_reads + 1;
                    if self.empty_reads >= NO_PROGRESS_LIMIT {
                        ReadStep::Failed(IoErrorKind::NoProgress)
                    } else {
                        ReadStep::Receive
                    }
                } else {
                    let count: usize = if n < buf.len() { n } else { buf.len() };
                    let mut data: Vec<u8> = Vec::new();
                    let mut i: usize = 0;
                    while i < count
                        invariant
                            count <= buf@.len(),
                            i <= count,
                            data@ == buf@.take(i as int),
                        decreases count - i,
                    {
                        data.push(buf[i]);
                        i = i + 1;
                        assert(data@ =~= buf@.take(i as int));
                    }
                    ReadStep::Done(data)
                }
            },
        }
    }
}

} // verus!
