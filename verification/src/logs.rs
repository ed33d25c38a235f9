//! In-app log buffer: a bounded ring of recent log lines, fed with
//! arbitrary chunks of text and split at newlines, so the user interface
//! can show recent log output without a console window.

use std::collections::VecDeque;

use vstd::prelude::*;

verus! {

/// Most lines kept; older ones are dropped first.
pub const CAPACITY: usize = 500;

/// `String::push`: appends one character.
pub assume_specification[ String::push ](s: &mut String, ch: char)
    ensures
        final(s)@ == old(s)@.push(ch),
;

pub struct LogBuffer {
    lines: VecDeque<String>,
    partial: String,
}

impl LogBuffer {
    /// The ring holds at most `CAPACITY` lines.
    #[verifier::type_invariant]
    spec fn bounded(self) -> bool {
        self.lines@.len() <= CAPACITY
    }
}

/// The contents of a log buffer: complete lines, oldest first, and the
/// text received after the last newline.
pub struct LogView {
    pub lines: Seq<Seq<char>>,
    pub partial: Seq<char>,
}

impl View for LogBuffer {
    type V = LogView;

    closed spec fn view(&self) -> LogView {
        LogView { lines: self.lines@.map_values(|l: String| l@), partial: self.partial@ }
    }
}

/// The last `n` lines (all of them when there are no more than `n`).
pub open spec fn keep_last(lines: Seq<Seq<char>>, n: nat) -> Seq<Seq<char>> {
    if lines.len() > n {
        lines.subrange(lines.len() - n, lines.len() as int)
    } else {
        lines
    }
}

/// One character into the buffer: a newline completes the pending line
/// (dropping the oldest lines beyond capacity), anything else extends it.
pub open spec fn log_step(v: LogView, ch: char) -> LogView {
    if ch == '\n' {
        LogView { lines: keep_last(v.lines.push(v.partial), CAPACITY as nat), partial: Seq::empty() }
    } else {
        LogView { lines: v.lines, partial: v.partial.push(ch) }
    }
}

/// A chunk of text into the buffer, character by character.
pub open spec fn log_feed(v: LogView, chunk: Seq<char>) -> LogView
    decreases chunk.len(),
{
    if chunk.len() == 0 {
        v
    } else {
        log_step(log_feed(v, chunk.drop_last()), chunk.last())
    }
}

/// Chunk boundaries do not matter: feeding `a` then `b` leaves the
/// buffer as feeding `a + b` at once, however the writer splits its
/// output.
pub proof fn lemma_log_feed_concat(v: LogView, a: Seq<char>, b: Seq<char>)
    ensures
        log_feed(v, a + b) == log_feed(log_feed(v, a), b),
    decreases b.len(),
{
    if b.len() == 0 {
        assert(a + b =~= a);
    } else {
        assert((a + b).drop_last() =~= a + b.drop_last());
        assert((a + b).last() == b.last());
        lemma_log_feed_concat(v, a, b.drop_last());
    }
}

/// The ring never holds more than `CAPACITY` lines.
pub proof fn lemma_log_bounded(v: LogView, chunk: Seq<char>)
    requires
        v.lines.len() <= CAPACITY,
    ensures
        log_feed(v, chunk).lines.len() <= CAPACITY,
    decreases chunk.len(),
{
    if chunk.len() > 0 {
        lemma_log_bounded(v, chunk.drop_last());
    }
}

/// The pending text never holds a newline: every newline completes a
/// line.
pub proof fn lemma_log_partial_has_no_newline(v: LogView, chunk: Seq<char>)
    requires
        !v.partial.contains('\n'),
    ensures
        !log_feed(v, chunk).partial.contains('\n'),
    decreases chunk.len(),
{
    if chunk.len() > 0 {
        let prev = log_feed(v, chunk.drop_last());
        lemma_log_partial_has_no_newline(v, chunk.drop_last());
        if chunk.last() != '\n' {
            assert forall|i: int| 0 <= i < prev.partial.push(chunk.last()).len() implies
                #[trigger] prev.partial.push(chunk.last())[i] != '\n' by {
                if i < prev.partial.len() {
                    assert(prev.partial[i] != '\n');
                }
            }
        }
    }
}

/// Text without a newline only extends the pending line.
pub proof fn lemma_log_no_newline_extends(v: LogView, chunk: Seq<char>)
    requires
        !chunk.contains('\n'),
    ensures
        log_feed(v, chunk) == (LogView { lines: v.lines, partial: v.partial + chunk }),
    decreases chunk.len(),
{
    if chunk.len() == 0 {
        assert(v.partial + chunk =~= v.partial);
    } else {
        assert(!chunk.drop_last().contains('\n')) by {
            if chunk.drop_last().contains('\n') {
                let i = choose|i: int| 0 <= i < chunk.drop_last().len() && chunk.drop_last()[i] == '\n';
                assert(chunk[i] == '\n');
            }
        }
        lemma_log_no_newline_extends(v, chunk.drop_last());
        assert(chunk.last() == chunk[chunk.len() - 1]);
        assert((v.partial + chunk.drop_last()).push(chunk.last()) =~= v.partial + chunk);
    }
}

impl LogBuffer {
    pub fn new() -> (b: LogBuffer)
        ensures
            b@.lines == Seq::<Seq<char>>::empty(),
            b@.partial == Seq::<char>::empty(),
    {
        let b = LogBuffer { lines: VecDeque::with_capacity(CAPACITY), partial: String::new() };
        assert(b@.lines =~= Seq::<Seq<char>>::empty());
        b
    }

    /// The text received after the last newline, not yet a line.
    pub fn partial(&self) -> (r: &str)
        ensures
            r@ == self@.partial,
    {
        self.partial.as_str()
    }

    /// Snapshot the current lines for display, oldest first.
    pub fn snapshot(&self) -> (r: Vec<String>)
        ensures
            r@.map_values(|l: String| l@) == self@.lines,
            r@.len() == self@.lines.len(),
            r@.len() <= CAPACITY,
    {
        proof {
            use_type_invariant(self);
        }
        let n = self.lines.len();
        let mut out: Vec<String> = Vec::with_capacity(n);
        let mut i: usize = 0;
        while i < n
            invariant
                i <= n,
                n == self.lines@.len(),
                out@.len() == i,
                forall|j: int| 0 <= j < i ==> out@[j]@ == self.lines@[j]@,
            decreases n - i,
        {
            out.push(self.lines[i].clone());
            i = i + 1;
        }
        assert(out@.map_values(|l: String| l@) =~= self@.lines);
        out
    }

    /// Feed a chunk of log output: complete lines move into the ring,
    /// the rest waits for its newline.
    pub fn push_chunk(&mut self, s: &str)
        ensures
            final(self)@ == log_feed(old(self)@, s@),
            final(self)@.lines.len() <= CAPACITY,
    {
        proof {
            use_type_invariant(&*self);
        }
        let ghost start = self@;
        let mut lines: VecDeque<String> = VecDeque::new();
        let mut partial = String::new();
        std::mem::swap(&mut lines, &mut self.lines);
        std::mem::swap(&mut partial, &mut self.partial);
        for ch in it: s.chars()
            invariant
                it.seq() == s@,
                lines@.len() <= CAPACITY,
                (LogView { lines: lines@.map_values(|l: String| l@), partial: partial@ }) == log_feed(
                    start,
                    s@.take(it.index() as int),
                ),
        {
            assert(s@.take(it.index() + 1).drop_last() =~= s@.take(it.index() as int));
            let ghost before = LogView { lines: lines@.map_values(|l: String| l@), partial: partial@ };
            if ch == '\n' {
                let line = partial.clone();
                partial = String::new();
                let ghost full = before.lines.push(before.partial);
                let ghost kept = lines@;
                if lines.len() >= CAPACITY {
                    lines.pop_front();
                    assert(lines@ =~= kept.subrange(1, kept.len() as int));
                }
                lines.push_back(line);
                assert(lines@.map_values(|l: String| l@) =~= keep_last(full, CAPACITY as nat)) by {
                    let k = keep_last(full, CAPACITY as nat);
                    assert forall|j: int| 0 <= j < lines@.len() implies #[trigger] lines@[j]@
                        == k[j] by {
                        if j + 1 < lines@.len() {
                            let off = if kept.len() >= CAPACITY { 1int } else { 0int };
                            assert(lines@[j] == kept[j + off]);
                            assert(kept.map_values(|l: String| l@)[j + off] == kept[j + off]@);
                        }
                    }
                }
                assert(partial@ =~= Seq::<char>::empty());
            } else {
                partial.push(ch);
            }
            assert((LogView { lines: lines@.map_values(|l: String| l@), partial: partial@ })
                == log_step(before, ch));
        }
        assert(s@.take(s@.len() as int) =~= s@);
        self.lines = lines;
        self.partial = partial;
    }
}

} // verus!
