//! The lines of a text file, as bytes.

use vstd::prelude::*;
use vstd::slice::{slice_subrange, slice_to_vec};

verus! {

/// The byte that ends a line.
pub const LINE_FEED: u8 = 10;

/// The byte that may stand before the line feed, and is then no part of the
/// line.
pub const CARRIAGE_RETURN: u8 = 13;

/// Where the first line of `bytes` ends: the place of the first line feed,
/// or the length of `bytes` if they hold none.
pub open spec fn first_line_end(bytes: Seq<u8>) -> nat
    decreases bytes.len(),
{
    if bytes.len() == 0 || bytes[0] == LINE_FEED {
        0
    } else {
        1 + first_line_end(bytes.drop_first())
    }
}

/// `line` without the carriage return at its end, if it has one.
pub open spec fn without_carriage_return(line: Seq<u8>) -> Seq<u8> {
    if line.len() > 0 && line.last() == CARRIAGE_RETURN {
        line.drop_last()
    } else {
        line
    }
}

/// The lines of a file. A line ends with a line feed, and is taken without
/// it and without a carriage return just before it. What follows the last
/// line feed is a line too, taken as it is, unless nothing follows.
pub open spec fn lines_of(bytes: Seq<u8>) -> Seq<Seq<u8>>
    decreases bytes.len(),
{
    let end = first_line_end(bytes);
    if bytes.len() == 0 {
        Seq::empty()
    } else if end >= bytes.len() {
        seq![bytes]
    } else {
        seq![without_carriage_return(bytes.take(end as int))] + lines_of(bytes.skip(end as int + 1))
    }
}

/// Where no line feed stands from `start` up to `end`, the first line of
/// what begins at `start` reaches up to `end`, if a line feed stands there
/// or the bytes end there.
proof fn lemma_first_line_end(bytes: Seq<u8>, start: int, end: int)
    requires
        0 <= start <= end <= bytes.len(),
        forall|i: int| start <= i < end ==> bytes[i] != LINE_FEED,
        end == bytes.len() || bytes[end] == LINE_FEED,
    ensures
        first_line_end(bytes.skip(start)) == end - start,
    decreases end - start,
{
    if start < end {
        assert(bytes.skip(start).drop_first() =~= bytes.skip(start + 1));
        lemma_first_line_end(bytes, start + 1, end);
    }
}

/// Each line as the sequence of its bytes.
pub open spec fn line_views(lines: Seq<Vec<u8>>) -> Seq<Seq<u8>> {
    lines.map_values(|line: Vec<u8>| line@)
}

/// Cuts the content of a file into its lines.
pub fn split_lines(bytes: &[u8]) -> (r: Vec<Vec<u8>>)
    ensures
        line_views(r@) == lines_of(bytes@),
{
    let mut lines: Vec<Vec<u8>> = Vec::new();
    let mut start: usize = 0;
    let mut i: usize = 0;
    assert(bytes@.skip(0) =~= bytes@);
    while i < bytes.len()
        invariant
            start <= i <= bytes@.len(),
            forall|k: int| start <= k < i ==> bytes@[k] != LINE_FEED,
            lines_of(bytes@) == line_views(lines@) + lines_of(bytes@.skip(start as int)),
        decreases bytes@.len() - i,
    {
        if bytes[i] == LINE_FEED {
            let end = if start < i && bytes[i - 1] == CARRIAGE_RETURN {
                i - 1
            } else {
                i
            };
            let line = slice_to_vec(slice_subrange(bytes, start, end));
            proof {
                let rest = bytes@.skip(start as int);
                lemma_first_line_end(bytes@, start as int, i as int);
                assert(rest.take(i - start) =~= bytes@.subrange(start as int, i as int));
                assert(line@ =~= without_carriage_return(rest.take(i - start)));
                assert(rest.skip(i - start + 1) =~= bytes@.skip(i + 1));
                assert(line_views(lines@.push(line)) =~= line_views(lines@) + seq![line@]);
            }
            lines.push(line);
            start = i + 1;
        }
        i = i + 1;
    }
    if start < bytes.len() {
        let line = slice_to_vec(slice_subrange(bytes, start, bytes.len()));
        proof {
            lemma_first_line_end(bytes@, start as int, bytes@.len() as int);
            assert(line@ =~= bytes@.skip(start as int));
            assert(line_views(lines@.push(line)) =~= line_views(lines@) + seq![line@]);
        }
        lines.push(line);
    } else {
        assert(bytes@.skip(start as int) =~= Seq::<u8>::empty());
    }
    lines
}

} // verus!
