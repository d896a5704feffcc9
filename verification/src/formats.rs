//! The catalog of known formats, and what can be drawn from it.

use crate::format::{PatternLoader, PatternWriter};
use vstd::prelude::*;

verus! {

/// One format of the catalog: the reader and the writer that it offers. A
/// capability that the format lacks is absent.
#[derive(Debug)]
pub struct PatternFormat<R, W> {
    pub reader: Option<R>,
    pub writer: Option<W>,
}

/// The reader of a format, where it has one.
pub open spec fn reader_of<R, W>() -> spec_fn(PatternFormat<R, W>) -> Option<R> {
    |format: PatternFormat<R, W>| format.reader
}

/// The writer of a format, where it has one.
pub open spec fn writer_of<R, W>() -> spec_fn(PatternFormat<R, W>) -> Option<W> {
    |format: PatternFormat<R, W>| format.writer
}

/// The readers of the formats that have one, in catalog order.
pub open spec fn readers_of<R, W>(all: Seq<PatternFormat<R, W>>) -> Seq<R> {
    all.filter_map(reader_of())
}

/// The writers of the formats that have one, in catalog order.
pub open spec fn writers_of<R, W>(all: Seq<PatternFormat<R, W>>) -> Seq<W> {
    all.filter_map(writer_of())
}

/// `drawn` holds what `part` gives for the items of `all`, for exactly the
/// items for which it gives something and in their order: `at` lists the
/// positions of those items, rising, and `drawn[k]` comes from `all[at[k]]`.
pub open spec fn drawn_in_order<A, B>(
    all: Seq<A>,
    part: spec_fn(A) -> Option<B>,
    drawn: Seq<B>,
    at: Seq<int>,
) -> bool {
    &&& at.len() == drawn.len()
    &&& forall|k: int|
        0 <= k < at.len() ==> 0 <= #[trigger] at[k] < all.len() && part(all[at[k]]) == Some(
            drawn[k],
        )
    &&& forall|j: int, k: int| 0 <= j < k < at.len() ==> at[j] < at[k]
    &&& forall|i: int| 0 <= i < all.len() && part(#[trigger] all[i]) is Some ==> at.contains(i)
}

/// The positions of `all` at which `part` gives something, rising.
spec fn positions<A, B>(all: Seq<A>, part: spec_fn(A) -> Option<B>) -> Seq<int>
    decreases all.len(),
{
    if all.len() == 0 {
        Seq::empty()
    } else if part(all.last()) is Some {
        positions(all.drop_last(), part).push(all.len() - 1)
    } else {
        positions(all.drop_last(), part)
    }
}

proof fn lemma_positions<A, B>(all: Seq<A>, part: spec_fn(A) -> Option<B>)
    ensures
        drawn_in_order(all, part, all.filter_map(part), positions(all, part)),
    decreases all.len(),
{
    let at = positions(all, part);
    let drawn = all.filter_map(part);
    if all.len() > 0 {
        let front = all.drop_last();
        let front_at = positions(front, part);
        let front_drawn = front.filter_map(part);
        lemma_positions(front, part);
        assert forall|i: int| 0 <= i < all.len() && part(#[trigger] all[i]) is Some implies at.contains(
            i,
        ) by {
            if i < front.len() {
                assert(part(front[i]) is Some);
                let k = choose|k: int| 0 <= k < front_at.len() && front_at[k] == i;
                assert(at[k] == i);
            } else {
                assert(at[at.len() - 1] == i);
            }
        }
        assert forall|k: int| 0 <= k < at.len() implies 0 <= #[trigger] at[k] < all.len() && part(
            all[at[k]],
        ) == Some(drawn[k]) by {
            if k < front_at.len() {
                assert(all[front_at[k]] == front[front_at[k]]);
            }
        }
    }
}

/// The readers drawn from a catalog are exactly those of its formats that
/// have one, and they stand in catalog order.
pub proof fn lemma_readers_exact_in_order<R, W>(all: Seq<PatternFormat<R, W>>)
    ensures
        exists|at: Seq<int>| #[trigger] drawn_in_order(all, reader_of(), readers_of(all), at),
{
    lemma_positions(all, reader_of::<R, W>());
    assert(drawn_in_order(all, reader_of(), readers_of(all), positions(all, reader_of::<R, W>())));
}

/// The writers drawn from a catalog are exactly those of its formats that
/// have one, and they stand in catalog order.
pub proof fn lemma_writers_exact_in_order<R, W>(all: Seq<PatternFormat<R, W>>)
    ensures
        exists|at: Seq<int>| #[trigger] drawn_in_order(all, writer_of(), writers_of(all), at),
{
    lemma_positions(all, writer_of::<R, W>());
    assert(drawn_in_order(all, writer_of(), writers_of(all), positions(all, writer_of::<R, W>())));
}

/// The catalog of the known formats, in the order in which they are tried
/// when a file's format has to be found out: the row-based text format, the
/// compact machine format, the vendor format, the vector-graphics format.
pub fn get_all<R: PatternLoader, W: PatternWriter>(
    csv: PatternFormat<R, W>,
    dst: PatternFormat<R, W>,
    hus_vip: PatternFormat<R, W>,
    svg: PatternFormat<R, W>,
) -> (all: Vec<PatternFormat<R, W>>)
    ensures
        all@ == seq![csv, dst, hus_vip, svg],
{
    let mut all: Vec<PatternFormat<R, W>> = Vec::new();
    all.push(csv);
    all.push(dst);
    all.push(hus_vip);
    all.push(svg);
    all
}

/// The readers of the catalog `all`: one for each format that can be read, in
/// catalog order.
pub fn get_readers<R: PatternLoader, W: PatternWriter>(all: Vec<PatternFormat<R, W>>) -> (readers:
    Vec<R>)
    ensures
        readers@ == readers_of(all@),
{
    let ghost catalog = all@;
    let mut readers: Vec<R> = Vec::new();
    for format in it: all.into_iter()
        invariant
            it.seq() == catalog,
            readers@ == readers_of(catalog.take(it.index() as int)),
    {
        proof {
            catalog.lemma_filter_map_take_succ(reader_of(), it.index() as int);
        }
        if let Some(reader) = format.reader {
            readers.push(reader);
        }
    }
    proof {
        assert(catalog.take(catalog.len() as int) == catalog);
    }
    readers
}

/// The writers of the catalog `all`: one for each format that can be
/// written, in catalog order.
pub fn get_writers<R: PatternLoader, W: PatternWriter>(all: Vec<PatternFormat<R, W>>) -> (writers:
    Vec<W>)
    ensures
        writers@ == writers_of(all@),
{
    let ghost catalog = all@;
    let mut writers: Vec<W> = Vec::new();
    for format in it: all.into_iter()
        invariant
            it.seq() == catalog,
            writers@ == writers_of(catalog.take(it.index() as int)),
    {
        proof {
            catalog.lemma_filter_map_take_succ(writer_of(), it.index() as int);
        }
        if let Some(writer) = format.writer {
            writers.push(writer);
        }
    }
    proof {
        assert(catalog.take(catalog.len() as int) == catalog);
    }
    writers
}

} // verus!
