//! Line framing: turning an incrementally-arriving byte stream into the
//! ordered sequence of complete, newline-terminated lines it contains.
//!
//! A line is the text between successive `\n` terminators, with one trailing
//! `\r` (if any) removed.  Bytes after the last terminator are buffered until
//! a later chunk terminates them; if the stream closes first they are
//! discarded, so only complete lines are ever produced.

use vstd::prelude::*;

verus! {

/// The line-feed byte that terminates a line.
pub const NL: u8 = 10;

/// The carriage-return byte stripped from the end of a line.
pub const CR: u8 = 13;

/// A line with one trailing carriage return (if any) removed.
pub open spec fn strip_cr(line: Seq<u8>) -> Seq<u8> {
    if line.len() > 0 && line.last() == CR {
        line.drop_last()
    } else {
        line
    }
}

/// The framing of a byte stream: the complete lines it contains, in order,
/// and the still-unterminated bytes after the last terminator.
pub open spec fn frame(bytes: Seq<u8>) -> (Seq<Seq<u8>>, Seq<u8>)
    decreases bytes.len(),
{
    if bytes.len() == 0 {
        (Seq::<Seq<u8>>::empty(), Seq::<u8>::empty())
    } else {
        let prev = frame(bytes.drop_last());
        if bytes.last() == NL {
            (prev.0.push(strip_cr(prev.1)), Seq::<u8>::empty())
        } else {
            (prev.0, prev.1.push(bytes.last()))
        }
    }
}

/// The complete lines of a byte stream, in order of arrival.
pub open spec fn lines_of(bytes: Seq<u8>) -> Seq<Seq<u8>> {
    frame(bytes).0
}

/// The unterminated trailing bytes of a byte stream.
pub open spec fn pending_of(bytes: Seq<u8>) -> Seq<u8> {
    frame(bytes).1
}

/// Splits a byte stream into complete lines as chunks arrive, buffering any
/// trailing partial line across chunk boundaries.  Its abstract value is the
/// whole byte sequence fed so far.
pub struct LineFramer {
    buf: Vec<u8>,
    fed: Ghost<Seq<u8>>,
}

impl View for LineFramer {
    type V = Seq<u8>;

    closed spec fn view(&self) -> Seq<u8> {
        self.fed@
    }
}

impl LineFramer {
    /// The buffered bytes are exactly the unterminated tail of what was fed.
    pub closed spec fn wf(self) -> bool {
        self.buf@ == pending_of(self.fed@)
    }

    /// A fresh framer that has seen no bytes.
    pub fn new() -> (r: LineFramer)
        ensures
            r.wf(),
            r@ == Seq::<u8>::empty(),
    {
        LineFramer { buf: Vec::new(), fed: Ghost(Seq::empty()) }
    }

    /// Feeds one chunk and returns the lines it completes: exactly the lines
    /// of the whole stream so far that were not complete before this chunk.
    pub fn push_chunk(&mut self, chunk: &[u8]) -> (out: Vec<Vec<u8>>)
        requires
            old(self).wf(),
        ensures
            final(self).wf(),
            final(self)@ == old(self)@ + chunk@,
            lines_of(final(self)@) == lines_of(old(self)@) + out.deep_view(),
    {
        let ghost fed0: Seq<u8> = self.fed@;
        let mut out: Vec<Vec<u8>> = Vec::new();
        let mut i: usize = 0;
        while i < chunk.len()
            invariant
                0 <= i <= chunk@.len(),
                self.fed@ == fed0 + chunk@.take(i as int),
                self.buf@ == pending_of(self.fed@),
                lines_of(self.fed@) == lines_of(fed0) + out.deep_view(),
            decreases chunk@.len() - i,
        {
            let b: u8 = chunk[i];
            let ghost fed_before: Seq<u8> = self.fed@;
            proof {
                assert(fed0 + chunk@.take(i + 1) == fed_before.push(b)) by {
                    assert(fed0 + chunk@.take(i + 1) =~= fed_before.push(b));
                }
                assert(fed_before.push(b).drop_last() =~= fed_before);
            }
            if b == NL {
                let line: Vec<u8> = self.take_line();
                proof {
                    assert(lines_of(fed_before.push(b))
                        == lines_of(fed_before).push(strip_cr(pending_of(fed_before))));
                    assert(line@ == strip_cr(pending_of(fed_before)));
                }
                let ghost out0: Seq<Seq<u8>> = out.deep_view();
                out.push(line);
                proof {
                    assert(out.deep_view() =~~= out0.push(line@));
                    assert(lines_of(fed0) + out0.push(line@)
                        =~= (lines_of(fed0) + out0).push(line@));
                }
            } else {
                self.buf.push(b);
            }
            self.fed = Ghost(fed_before.push(b));
            i = i + 1;
        }
        proof {
            assert(chunk@.take(chunk@.len() as int) =~= chunk@);
        }
        out
    }

    /// Removes and returns the buffered partial line, with a trailing
    /// carriage return stripped, leaving the buffer empty.
    fn take_line(&mut self) -> (line: Vec<u8>)
        ensures
            line@ == strip_cr(old(self).buf@),
            final(self).buf@ == Seq::<u8>::empty(),
            final(self).fed@ == old(self).fed@,
    {
        let mut line: Vec<u8> = Vec::new();
        core::mem::swap(&mut line, &mut self.buf);
        if line.len() > 0 && line[line.len() - 1] == CR {
            line.pop();
            proof {
                assert(line@ =~= strip_cr(old(self).buf@));
            }
        }
        line
    }
}

} // verus!
