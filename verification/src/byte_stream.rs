//! A finite byte stream held in memory: everything a transport delivered
//! before it closed. It answers exact reads the way a socket does, so the
//! decoder can be driven over recorded bytes.

use crate::minicap_client::ReadOutcome;
use vstd::prelude::*;
use vstd::slice::slice_subrange;
use vstd::slice::slice_to_vec;

verus! {

pub struct ByteStream {
    data: Vec<u8>,
    pos: usize,
}

impl ByteStream {
    #[verifier::type_invariant]
    spec fn in_bounds(self) -> bool {
        self.pos <= self.data@.len()
    }

    /// The bytes that have not been read yet.
    pub closed spec fn remaining(self) -> Seq<u8> {
        self.data@.skip(self.pos as int)
    }

    /// A stream that delivers `data` and then closes.
    pub fn new(data: Vec<u8>) -> (stream: ByteStream)
        ensures
            stream.remaining() == data@,
    {
        ByteStream { data, pos: 0 }
    }

    /// Number of bytes that have not been read yet.
    pub fn available(&self) -> (n: usize)
        ensures
            n == self.remaining().len(),
    {
        proof {
            use_type_invariant(self);
        }
        self.data.len() - self.pos
    }

    /// Reads exactly `n` bytes. Where fewer are left, the stream closes under
    /// the read: what was left is gone and no bytes are handed out.
    pub fn read_exact(&mut self, n: usize) -> (outcome: ReadOutcome)
        ensures
            n <= old(self).remaining().len() ==> (outcome matches ReadOutcome::Data(chunk)
                && chunk@ == old(self).remaining().take(n as int)
                && final(self).remaining() == old(self).remaining().skip(n as int)),
            n > old(self).remaining().len() ==> outcome == ReadOutcome::Closed
                && final(self).remaining().len() == 0,
    {
        proof {
            use_type_invariant(&*self);
        }
        let left = self.data.len() - self.pos;
        if n <= left {
            let chunk = slice_to_vec(slice_subrange(self.data.as_slice(), self.pos, self.pos + n));
            assert(chunk@ == old(self).remaining().take(n as int));
            self.pos = self.pos + n;
            assert(self.remaining() == old(self).remaining().skip(n as int));
            ReadOutcome::Data(chunk)
        } else {
            self.pos = self.data.len();
            ReadOutcome::Closed
        }
    }
}

} // verus!
