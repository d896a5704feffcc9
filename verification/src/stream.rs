//! The readable byte source that formats probe and read.

use vstd::prelude::*;
use vstd::slice::slice_subrange;

verus! {

/// The mathematical value of a [`ByteSource`]: all of its bytes, and how many
/// of them have been read.
pub struct SourceView {
    pub bytes: Seq<u8>,
    pub position: nat,
}

impl SourceView {
    /// The bytes that have not been read yet.
    pub open spec fn remaining(self) -> Seq<u8> {
        self.bytes.skip(self.position as int)
    }
}

/// A readable stream of bytes held in memory, with a read position that never
/// lies behind the last byte.
#[derive(Debug)]
pub struct ByteSource {
    bytes: Vec<u8>,
    position: usize,
}

impl View for ByteSource {
    type V = SourceView;

    closed spec fn view(&self) -> SourceView {
        SourceView { bytes: self.bytes@, position: self.position as nat }
    }
}

impl ByteSource {
    #[verifier::type_invariant]
    spec fn well_formed(&self) -> bool {
        self.position <= self.bytes.len()
    }

    /// A source over `bytes`, positioned at their start.
    pub fn new(bytes: Vec<u8>) -> (source: Self)
        ensures
            source@ == (SourceView { bytes: bytes@, position: 0 }),
    {
        ByteSource { bytes, position: 0 }
    }

    /// How many bytes have been read.
    pub fn position(&self) -> (position: usize)
        ensures
            position == self@.position,
            position <= self@.bytes.len(),
    {
        proof {
            use_type_invariant(self);
        }
        self.position
    }

    /// The bytes that have not been read yet. Looking at them reads none.
    pub fn remaining(&self) -> (rest: &[u8])
        ensures
            rest@ == self@.remaining(),
    {
        proof {
            use_type_invariant(self);
        }
        slice_subrange(self.bytes.as_slice(), self.position, self.bytes.len())
    }

    /// Moves the read position to `position`, or to the end of the source
    /// where `position` lies behind it. The bytes stay as they are.
    pub fn seek(&mut self, position: usize)
        ensures
            final(self)@.bytes == old(self)@.bytes,
            final(self)@.position == if position <= old(self)@.bytes.len() {
                position as nat
            } else {
                old(self)@.bytes.len()
            },
    {
        let end = self.bytes.len();
        self.position = if position <= end {
            position
        } else {
            end
        };
    }
}

} // verus!
