//! What a file format must do to take part: the contract of a reader and of
//! a writer.

use crate::errors::{Error, Payload};
use crate::pattern::Pattern;
use crate::stitch::Stitch;
use crate::stream::ByteSource;
use vstd::prelude::*;

verus! {

/// The reading side of a format.
pub trait PatternLoader {
    /// Whether `item` plausibly holds this format. This is a cheap look at a
    /// magic number or at the structure, no validation.
    ///
    /// The source is left as it was found, position and bytes, so that
    /// another probe or a read can follow. A source with nothing left to read
    /// is never taken for this format.
    fn is_loadable(&self, item: &mut ByteSource) -> (loadable: Result<bool, Error>)
        ensures
            final(item)@ == old(item)@,
            old(item)@.remaining().len() == 0 ==> !(loadable matches Ok(true)),
    ;

    /// Reads the pattern from `item`. Where the position ends up is left
    /// open; the bytes stay the same. A reader fails with a cause from below,
    /// never with a stitch.
    fn read_pattern(&self, item: &mut ByteSource) -> (pattern: Result<Pattern, Error>)
        ensures
            final(item)@.bytes == old(item)@.bytes,
            pattern matches Err(e) ==> e@.payload is Cause,
    ;
}

/// What a format declares of the stitches that it can hold.
pub trait StitchSupport {
    /// Whether the format can hold `stitch`.
    spec fn supports(&self, stitch: Stitch) -> bool;

    /// Whether the format can hold `stitch`.
    fn can_write(&self, stitch: &Stitch) -> (supported: bool)
        ensures
            supported == self.supports(*stitch),
    ;
}

/// The format can hold every stitch of the sequence.
pub open spec fn all_supported<S: StitchSupport + ?Sized>(
    format: &S,
    stitches: Seq<Stitch>,
) -> bool {
    forall|i: int| 0 <= i < stitches.len() ==> format.supports(#[trigger] stitches[i])
}

/// Position `i` holds the first stitch of the sequence that the format cannot
/// hold.
pub open spec fn is_first_unsupported<S: StitchSupport + ?Sized>(
    format: &S,
    stitches: Seq<Stitch>,
    i: int,
) -> bool {
    &&& 0 <= i < stitches.len()
    &&& !format.supports(stitches[i])
    &&& forall|j: int| 0 <= j < i ==> format.supports(#[trigger] stitches[j])
}

/// The writing side of a format.
pub trait PatternWriter: StitchSupport {
    /// Writes `pattern` to the end of `sink`.
    ///
    /// A writer succeeds only where the format can hold every stitch. It
    /// reports a stitch only where that stitch is the first one of the
    /// pattern that the format cannot hold, together with its position. What
    /// was in the sink before stays there, and what was written before a
    /// failure is not taken back.
    fn write_pattern(&self, pattern: &Pattern, sink: &mut Vec<u8>) -> (written: Result<(), Error>)
        ensures
            old(sink)@.is_prefix_of(final(sink)@),
            written is Ok ==> all_supported(self, pattern@.stitches),
            written matches Err(e) ==> (e@.payload matches Payload::Stitch { stitch, idx } ==> {
                &&& idx matches Some(i)
                &&& is_first_unsupported(self, pattern@.stitches, i as int)
                &&& pattern@.stitches[i as int] == stitch
            }),
    ;
}

/// Checks that `format` can hold every stitch of `pattern`.
///
/// Where it cannot, the error names the first stitch that it cannot hold and
/// the position of that stitch, and has no context yet. The stitches before
/// it raise nothing.
pub fn check_supported<S: StitchSupport>(format: &S, pattern: &Pattern) -> (checked: Result<
    (),
    Error,
>)
    ensures
        checked is Ok <==> all_supported(format, pattern@.stitches),
        checked matches Err(e) ==> {
            &&& e@.payload matches Payload::Stitch { stitch, idx }
            &&& idx matches Some(i)
            &&& is_first_unsupported(format, pattern@.stitches, i as int)
            &&& pattern@.stitches[i as int] == stitch
            &&& e@.context == Seq::<Seq<char>>::empty()
        },
{
    let stitches = pattern.stitches();
    let mut i: usize = 0;
    while i < stitches.len()
        invariant
            i <= stitches.len(),
            stitches@ == pattern@.stitches,
            forall|j: int| 0 <= j < i ==> format.supports(#[trigger] stitches@[j]),
        decreases stitches.len() - i,
    {
        if !format.can_write(&stitches[i]) {
            assert(!format.supports(pattern@.stitches[i as int]));
            return Err(Error::unsupported_stitch(stitches[i], Some(i)));
        }
        i = i + 1;
    }
    Ok(())
}

} // verus!
