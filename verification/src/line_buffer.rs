//! Reassembles complete lines from a process's stdout chunks. Chunks are not
//! guaranteed to split on line ends, so a line can arrive in pieces.

use vstd::prelude::*;
use vstd::string::*;
use crate::splitting::{copy_range, find_byte_from, find_first, lemma_find_first, lemma_split_on_concat, lemma_split_on_nonempty, split_on};
use crate::text::{decode_utf8_lossy, lossy_text, trim_text, trimmed};

verus! {

/// The views of a list of strings.
pub open spec fn string_views(v: Seq<String>) -> Seq<Seq<char>> {
    v.map_values(|s: String| s@)
}

/// `line` without one trailing carriage return.
pub open spec fn without_cr(line: Seq<u8>) -> Seq<u8> {
    if line.len() > 0 && line.last() == 13u8 {
        line.drop_last()
    } else {
        line
    }
}

/// The text handed on for one raw line: decoded lossily and trimmed, and
/// nothing when that leaves it empty.
pub open spec fn delivered_line(line: Seq<u8>) -> Option<Seq<char>> {
    let text = trimmed(lossy_text(line));
    if text.len() == 0 {
        None
    } else {
        Some(text)
    }
}

/// The texts handed on for a list of complete lines, each first stripped of
/// a trailing carriage return.
pub open spec fn delivered_lines(lines: Seq<Seq<u8>>) -> Seq<Seq<char>>
    decreases lines.len(),
{
    if lines.len() == 0 {
        Seq::empty()
    } else {
        delivered_lines(lines.drop_last()) + match delivered_line(without_cr(lines.last())) {
            Some(t) => seq![t],
            None => Seq::empty(),
        }
    }
}

/// The newline-terminated lines of `buf`, newlines removed.
pub open spec fn complete_lines(buf: Seq<u8>) -> Seq<Seq<u8>> {
    split_on(buf, 10u8).drop_last()
}

/// What follows the last newline of `buf`.
pub open spec fn unfinished_line(buf: Seq<u8>) -> Seq<u8> {
    split_on(buf, 10u8).last()
}

/// Bytes received since the last complete line.
pub struct LineBuffer {
    pending: Vec<u8>,
}

impl View for LineBuffer {
    type V = Seq<u8>;

    closed spec fn view(&self) -> Seq<u8> {
        self.pending@
    }
}

proof fn lemma_delivered_lines_concat(x: Seq<Seq<u8>>, y: Seq<Seq<u8>>)
    ensures
        delivered_lines(x + y) == delivered_lines(x) + delivered_lines(y),
    decreases y.len(),
{
    if y.len() == 0 {
        assert(x + y =~= x);
    } else {
        lemma_delivered_lines_concat(x, y.drop_last());
        assert((x + y).drop_last() =~= x + y.drop_last());
        assert((x + y).last() == y.last());
    }
}

/// Pushing two chunks one after the other hands on exactly the lines, and
/// keeps exactly the unfinished rest, that pushing their concatenation does:
/// where the process's output happens to be cut into chunks changes nothing.
pub proof fn chunk_boundaries_do_not_matter(pending: Seq<u8>, a: Seq<u8>, b: Seq<u8>)
    ensures
        delivered_lines(complete_lines(pending + a)) + delivered_lines(
            complete_lines(unfinished_line(pending + a) + b),
        ) == delivered_lines(complete_lines(pending + a + b)),
        unfinished_line(unfinished_line(pending + a) + b) == unfinished_line(pending + a + b),
{
    let s = split_on(pending + a, 10u8);
    let t = split_on(s.last() + b, 10u8);
    lemma_split_on_concat(pending + a, b, 10u8);
    lemma_split_on_nonempty(pending + a, 10u8);
    lemma_split_on_nonempty(s.last() + b, 10u8);
    assert((s.drop_last() + t).drop_last() =~= s.drop_last() + t.drop_last());
    assert((s.drop_last() + t).last() == t.last());
    lemma_delivered_lines_concat(s.drop_last(), t.drop_last());
}

impl LineBuffer {
    pub fn new() -> (r: LineBuffer)
        ensures
            r@ == Seq::<u8>::empty(),
    {
        LineBuffer { pending: Vec::new() }
    }

    /// Adds `chunk`, hands on the text of every line it completes (each
    /// stripped of one trailing `\r`, decoded lossily, trimmed, empty ones
    /// dropped) and keeps the unfinished rest.
    pub fn push(&mut self, chunk: &[u8]) -> (lines: Vec<String>)
        ensures
            final(self)@ == unfinished_line(old(self)@ + chunk@),
            string_views(lines@) == delivered_lines(complete_lines(old(self)@ + chunk@)),
    {
        let mut buf: Vec<u8> = Vec::new();
        std::mem::swap(&mut buf, &mut self.pending);
        let ghost before = buf@;
        let mut k: usize = 0;
        while k < chunk.len()
            invariant
                k <= chunk@.len(),
                buf@ == before + chunk@.take(k as int),
            decreases chunk@.len() - k,
        {
            buf.push(chunk[k]);
            proof {
                assert(before + chunk@.take(k + 1) =~= (before + chunk@.take(k as int)).push(
                    chunk@[k as int],
                ));
            }
            k = k + 1;
        }
        proof {
            assert(chunk@.take(chunk@.len() as int) =~= chunk@);
        }
        let mut lines: Vec<String> = Vec::new();
        let mut start: usize = 0;
        let len = buf.len();
        let ghost whole = old(self)@ + chunk@;
        let ghost mut done: Seq<Seq<u8>> = Seq::empty();
        assert(buf@.skip(0) =~= buf@);
        loop
            invariant
                start <= buf@.len(),
                len == buf@.len(),
                buf@ == whole,
                whole == old(self)@ + chunk@,
                split_on(buf@, 10u8) == done + split_on(buf@.skip(start as int), 10u8),
                string_views(lines@) == delivered_lines(done),
            decreases buf@.len() - start,
        {
            let ghost rest = buf@.skip(start as int);
            match find_byte_from(&buf, start, 10u8) {
                Some(i) => {
                    let end = if i > start && buf[i - 1] == 13u8 {
                        i - 1
                    } else {
                        i
                    };
                    let line = copy_range(&buf, start, end);
                    let ghost raw = buf@.subrange(start as int, i as int);
                    proof {
                        lemma_find_first(rest, 10u8);
                        assert(rest.take(i - start) =~= raw);
                        assert(rest.skip(i - start + 1) =~= buf@.skip(i + 1));
                        assert(split_on(rest, 10u8) == seq![raw] + split_on(buf@.skip(i + 1), 10u8));
                        assert(line@ =~= without_cr(raw));
                        assert(done.push(raw).drop_last() =~= done);
                        assert(done + (seq![raw] + split_on(buf@.skip(i + 1), 10u8)) =~= done.push(
                            raw,
                        ) + split_on(buf@.skip(i + 1), 10u8));
                    }
                    let delivered = LineBuffer::deliver(line.as_slice());
                    match delivered {
                        Some(text) => {
                            lines.push(text);
                        },
                        None => {},
                    }
                    proof {
                        assert(string_views(lines@) =~= delivered_lines(done.push(raw)));
                        done = done.push(raw);
                    }
                    start = i + 1;
                },
                None => {
                    proof {
                        assert(split_on(rest, 10u8) == seq![rest]);
                        assert((done + seq![rest]).drop_last() =~= done);
                    }
                    self.pending = copy_range(&buf, start, len);
                    proof {
                        assert(buf@.subrange(start as int, len as int) =~= rest);
                    }
                    return lines;
                },
            }
        }
    }

    /// Hands on whatever is left once the stream ends (decoded lossily,
    /// trimmed, nothing if that leaves it empty) and empties the buffer.
    pub fn flush(&mut self) -> (line: Option<String>)
        ensures
            final(self)@ == Seq::<u8>::empty(),
            match line {
                Some(t) => delivered_line(old(self)@) == Some(t@),
                None => delivered_line(old(self)@) is None,
            },
    {
        let mut pending: Vec<u8> = Vec::new();
        std::mem::swap(&mut pending, &mut self.pending);
        LineBuffer::deliver(pending.as_slice())
    }

    /// The text of one line: decoded lossily, trimmed, `None` when empty.
    pub fn deliver(line: &[u8]) -> (text: Option<String>)
        ensures
            match text {
                Some(t) => delivered_line(line@) == Some(t@),
                None => delivered_line(line@) is None,
            },
    {
        let decoded = decode_utf8_lossy(line);
        let text = trim_text(decoded.as_str());
        if text.as_str().unicode_len() == 0 {
            None
        } else {
            Some(text)
        }
    }
}

impl Default for LineBuffer {
    fn default() -> (r: LineBuffer)
        ensures
            r@ == Seq::<u8>::empty(),
    {
        LineBuffer::new()
    }
}

} // verus!
