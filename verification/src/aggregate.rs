//! Stream aggregation: concatenating, in arrival order, every fragment the
//! backend's streamed lines carry.
//!
//! The aggregator is fed the response body chunk by chunk, however the
//! transport happens to split it; its answer is a function of the
//! concatenated bytes alone.  When the stream ends — normally or by a read
//! error after some prefix of the body arrived — the answer accumulated over
//! the chunks received so far is returned as it stands.

use vstd::prelude::*;
use vstd::string::StringExecFns;
use crate::framer::{LineFramer, lines_of};
use crate::fragment::{frag_text, extract_fragment};

verus! {

/// The concatenation, in order, of the fragment text of each line.
pub open spec fn concat_frags(lines: Seq<Seq<u8>>) -> Seq<char>
    decreases lines.len(),
{
    if lines.len() == 0 {
        Seq::<char>::empty()
    } else {
        concat_frags(lines.drop_last()) + frag_text(lines.last())
    }
}

/// The answer aggregated from a byte stream: the concatenated fragments of
/// its complete lines.  Unterminated trailing bytes contribute nothing.
pub open spec fn aggregate_of(bytes: Seq<u8>) -> Seq<char> {
    concat_frags(lines_of(bytes))
}

/// Drives the line framer and the fragment extractor across a response
/// body, appending each extracted fragment to the answer as it arrives.
/// Its abstract value is the whole byte sequence fed so far.
pub struct Aggregator {
    framer: LineFramer,
    answer: String,
}

impl View for Aggregator {
    type V = Seq<u8>;

    closed spec fn view(&self) -> Seq<u8> {
        self.framer@
    }
}

impl Aggregator {
    /// The answer held so far is exactly the aggregate of the bytes fed.
    pub closed spec fn wf(self) -> bool {
        &&& self.framer.wf()
        &&& self.answer@ == aggregate_of(self.framer@)
    }

    /// A fresh aggregator with an empty answer.
    pub fn new() -> (r: Aggregator)
        ensures
            r.wf(),
            r@ == Seq::<u8>::empty(),
    {
        let framer = LineFramer::new();
        Aggregator { framer, answer: String::new() }
    }

    /// Feeds the next chunk of the response body, extending the answer by
    /// the fragments of every line this chunk completes.
    pub fn push_chunk(&mut self, chunk: &[u8])
        requires
            old(self).wf(),
        ensures
            final(self).wf(),
            final(self)@ == old(self)@ + chunk@,
    {
        let ghost fed0: Seq<u8> = self.framer@;
        let lines: Vec<Vec<u8>> = self.framer.push_chunk(chunk);
        let ghost dv: Seq<Seq<u8>> = lines.deep_view();
        let mut j: usize = 0;
        while j < lines.len()
            invariant
                0 <= j <= lines@.len(),
                dv == lines.deep_view(),
                dv.len() == lines@.len(),
                lines_of(self.framer@) == lines_of(fed0) + dv,
                self.framer@ == fed0 + chunk@,
                self.framer.wf(),
                self.answer@ == concat_frags(lines_of(fed0) + dv.take(j as int)),
            decreases lines@.len() - j,
        {
            let line: &Vec<u8> = &lines[j];
            proof {
                assert(dv[j as int] =~= line@);
                assert(lines_of(fed0) + dv.take(j + 1)
                    =~= (lines_of(fed0) + dv.take(j as int)).push(dv[j as int]));
                assert(((lines_of(fed0) + dv.take(j as int)).push(dv[j as int])).drop_last()
                    =~= lines_of(fed0) + dv.take(j as int));
            }
            let fragment: Option<String> = extract_fragment(line.as_slice());
            match fragment {
                Option::Some(f) => {
                    self.answer.append(f.as_str());
                    proof {
                        assert(frag_text(line@) == f@);
                    }
                },
                Option::None => {
                    proof {
                        assert(frag_text(line@) == Seq::<char>::empty());
                        assert(self.answer@ + Seq::<char>::empty() =~= self.answer@);
                    }
                },
            }
            j = j + 1;
        }
        proof {
            assert(dv.take(dv.len() as int) =~= dv);
        }
    }

    /// Freezes and returns the answer: the aggregate of every byte fed, in
    /// which only complete lines count.  A partial trailing line, like a
    /// stream cut short by a read error, leaves exactly the fragments that
    /// arrived before it.
    pub fn finish(self) -> (r: String)
        requires
            self.wf(),
        ensures
            r@ == aggregate_of(self@),
    {
        self.answer
    }
}

} // verus!
