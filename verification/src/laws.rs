//! Laws of the streaming pipeline, proved over the framing and aggregation
//! model.

use vstd::prelude::*;
use crate::framer::{NL, CR, lines_of, pending_of, strip_cr};
use crate::fragment::{fragment_of, frag_text};
use crate::aggregate::{concat_frags, aggregate_of};

verus! {

/// A record fit for newline-terminated framing: it holds no line feed of
/// its own, and does not end in a carriage return.
pub open spec fn framable_record(line: Seq<u8>) -> bool {
    &&& forall|i: int| 0 <= i < line.len() ==> line[i] != NL
    &&& line.len() > 0 ==> line.last() != CR
}

/// Every record of the sequence is fit for newline-terminated framing.
pub open spec fn framable_records(lines: Seq<Seq<u8>>) -> bool {
    forall|i: int| 0 <= i < lines.len() ==> framable_record(#[trigger] lines[i])
}

/// The byte stream that carries the given records, each terminated by one
/// line feed.
pub open spec fn encode_lines(lines: Seq<Seq<u8>>) -> Seq<u8>
    decreases lines.len(),
{
    if lines.len() == 0 {
        Seq::<u8>::empty()
    } else {
        encode_lines(lines.drop_last()) + lines.last().push(NL)
    }
}

/// Appending bytes free of line feeds completes no line: it only extends
/// the pending tail.
proof fn lemma_frame_extend_no_nl(a: Seq<u8>, b: Seq<u8>)
    requires
        forall|i: int| 0 <= i < b.len() ==> b[i] != NL,
    ensures
        lines_of(a + b) == lines_of(a),
        pending_of(a + b) == pending_of(a) + b,
    decreases b.len(),
{
    if b.len() == 0 {
        assert(a + b =~= a);
        assert(pending_of(a) + b =~= pending_of(a));
    } else {
        lemma_frame_extend_no_nl(a, b.drop_last());
        assert(a + b =~= (a + b.drop_last()).push(b.last()));
        assert((a + b.drop_last()).push(b.last()).drop_last() =~= a + b.drop_last());
        assert(pending_of(a) + b =~= (pending_of(a) + b.drop_last()).push(b.last()));
    }
}

/// Appending one framable record and its terminator to a stream with no
/// pending bytes completes exactly that record.
proof fn lemma_frame_append_record(a: Seq<u8>, line: Seq<u8>)
    requires
        framable_record(line),
        pending_of(a) == Seq::<u8>::empty(),
    ensures
        lines_of(a + line.push(NL)) == lines_of(a).push(line),
        pending_of(a + line.push(NL)) == Seq::<u8>::empty(),
{
    lemma_frame_extend_no_nl(a, line);
    assert(pending_of(a + line) =~= line);
    assert(a + line.push(NL) =~= (a + line).push(NL));
    assert((a + line).push(NL).drop_last() =~= a + line);
    assert(strip_cr(line) == line);
}

/// Framing inverts encoding: the lines of a stream built of framable,
/// newline-terminated records are exactly those records, in order, with
/// nothing left pending.
pub proof fn lemma_lines_of_encoding(lines: Seq<Seq<u8>>)
    requires
        framable_records(lines),
    ensures
        lines_of(encode_lines(lines)) == lines,
        pending_of(encode_lines(lines)) == Seq::<u8>::empty(),
    decreases lines.len(),
{
    if lines.len() == 0 {
        assert(lines_of(encode_lines(lines)) =~= lines);
    } else {
        assert(framable_records(lines.drop_last()));
        lemma_lines_of_encoding(lines.drop_last());
        lemma_frame_append_record(encode_lines(lines.drop_last()), lines.last());
        assert(lines.drop_last().push(lines.last()) =~= lines);
    }
}

/// For every byte stream made of newline-terminated records, the aggregate
/// is the concatenation, in order, of each record's fragment text.  The
/// aggregator computes a function of the concatenated bytes alone, so this
/// holds regardless of how the stream is chunked in transit.
pub proof fn lemma_aggregate_of_encoding(lines: Seq<Seq<u8>>)
    requires
        framable_records(lines),
    ensures
        aggregate_of(encode_lines(lines)) == concat_frags(lines),
{
    lemma_lines_of_encoding(lines);
}

/// A line carrying no fragment contributes nothing: wherever it stands, the
/// concatenated answer is that of the remaining lines alone, and the lines
/// after it still contribute in full.
pub proof fn lemma_fragmentless_line_adds_nothing(
    before: Seq<Seq<u8>>,
    line: Seq<u8>,
    after: Seq<Seq<u8>>,
)
    requires
        fragment_of(line) is None,
    ensures
        concat_frags(before.push(line) + after) == concat_frags(before + after),
    decreases after.len(),
{
    if after.len() == 0 {
        assert(before.push(line) + after =~= before.push(line));
        assert(before + after =~= before);
        assert(before.push(line).drop_last() =~= before);
        assert(frag_text(line) == Seq::<char>::empty());
        assert(concat_frags(before) + Seq::<char>::empty() =~= concat_frags(before));
    } else {
        lemma_fragmentless_line_adds_nothing(before, line, after.drop_last());
        assert(before.push(line) + after
            =~= (before.push(line) + after.drop_last()).push(after.last()));
        assert((before.push(line) + after.drop_last()).push(after.last()).drop_last()
            =~= before.push(line) + after.drop_last());
        assert(before + after =~= (before + after.drop_last()).push(after.last()));
        assert((before + after.drop_last()).push(after.last()).drop_last()
            =~= before + after.drop_last());
    }
}

} // verus!
