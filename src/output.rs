//! The append-only output log and its offset-based incremental reads.

use vstd::prelude::*;
use crate::ansi::{strip_ansi, stripped};
use crate::text::push_char;

verus! {

/// Decoded, filtered output of a session. Text is only ever appended, so an
/// offset once handed out stays valid.
pub struct OutputLog {
    chars: Vec<char>,
}

impl View for OutputLog {
    type V = Seq<char>;

    closed spec fn view(&self) -> Seq<char> {
        self.chars@
    }
}

/// What a read at `offset` returns from `log`, and the offset after it.
pub open spec fn read_step(log: Seq<char>, offset: nat) -> (Seq<char>, nat) {
    if offset >= log.len() {
        (Seq::empty(), offset)
    } else {
        (log.subrange(offset as int, log.len() as int), log.len())
    }
}

/// The texts returned by reads at successive states `logs` of the log,
/// starting at `offset`, each read passing its offset on to the next.
pub open spec fn reads_from(logs: Seq<Seq<char>>, offset: nat) -> Seq<char>
    decreases logs.len(),
{
    if logs.len() == 0 {
        Seq::empty()
    } else {
        let (text, next) = read_step(logs[0], offset);
        text + reads_from(logs.drop_first(), next)
    }
}

/// Each state of the log extends the one before it.
pub open spec fn grows(logs: Seq<Seq<char>>) -> bool {
    forall|i: int| 0 <= i < logs.len() - 1 ==> (#[trigger] logs[i]).is_prefix_of(logs[i + 1])
}

/// The log after appending each of `texts` in turn to `log`.
pub open spec fn after_appends(log: Seq<char>, texts: Seq<Seq<char>>) -> Seq<char>
    decreases texts.len(),
{
    if texts.len() == 0 {
        log
    } else {
        after_appends(log, texts.drop_last()) + texts.last()
    }
}

/// Name of the decoding of raw bytes that `String::from_utf8_lossy` performs.
pub uninterp spec fn lossy_text(bytes: Seq<u8>) -> Seq<char>;

/// Relies on `String::from_utf8_lossy`: the bytes decoded as UTF-8, with a
/// replacement character for each invalid sequence; no bytes, no text.
#[verifier::external_body]
fn decode_lossy(bytes: &[u8]) -> (r: String)
    ensures
        r@ == lossy_text(bytes@),
        bytes@.len() == 0 ==> r@.len() == 0,
{
    String::from_utf8_lossy(bytes).into_owned()
}

/// Reads at successive states of a growing log, with one offset carried from
/// each read to the next, return consecutive pieces of the last state: put
/// together after what lay before the first offset, they give it whole, with
/// no gap and no overlap.
pub proof fn lemma_reads_partition(logs: Seq<Seq<char>>, offset: nat)
    requires
        logs.len() > 0,
        grows(logs),
        offset <= logs[0].len(),
    ensures
        logs[0].subrange(0, offset as int) + reads_from(logs, offset) == logs.last(),
    decreases logs.len(),
{
    let (text, next) = read_step(logs[0], offset);
    let rest = logs.drop_first();
    if offset >= logs[0].len() {
        assert(logs[0].subrange(0, offset as int) =~= logs[0]);
    } else {
        assert(logs[0].subrange(0, offset as int) + text =~= logs[0]);
        assert(logs[0].subrange(0, next as int) =~= logs[0]);
    }
    if logs.len() == 1 {
        assert(reads_from(rest, next) =~= Seq::<char>::empty());
        assert(logs[0].subrange(0, offset as int) + text =~= logs[0]);
    } else {
        assert(grows(rest)) by {
            assert forall|i: int| 0 <= i < rest.len() - 1 implies (#[trigger] rest[i]).is_prefix_of(
                rest[i + 1],
            ) by {
                assert(logs[i + 1].is_prefix_of(logs[i + 2]));
            }
        }
        assert(logs[0].is_prefix_of(logs[1]));
        assert(next == logs[0].len());
        lemma_reads_partition(rest, next);
        assert(rest[0].subrange(0, next as int) =~= logs[0]);
        assert(logs[0].subrange(0, offset as int) + text =~= logs[0]);
        assert(logs[0].subrange(0, offset as int) + (text + reads_from(rest, next)) =~= logs[0]
            + reads_from(rest, next));
    }
}

/// Appending never removes or changes what the log held: a later snapshot
/// extends an earlier one.
pub proof fn lemma_snapshot_extends(log: Seq<char>, texts: Seq<Seq<char>>)
    ensures
        log.is_prefix_of(after_appends(log, texts)),
    decreases texts.len(),
{
    if texts.len() > 0 {
        lemma_snapshot_extends(log, texts.drop_last());
        let before = after_appends(log, texts.drop_last());
        assert(before.is_prefix_of(before + texts.last()));
        assert forall|i: int| 0 <= i < log.len() implies log[i] == after_appends(log, texts)[i] by {
            assert(log[i] == before[i]);
        }
    }
}

/// The string holding `chars[from..]`.
fn string_from(chars: &Vec<char>, from: usize) -> (r: String)
    requires
        from <= chars@.len(),
    ensures
        r@ == chars@.subrange(from as int, chars@.len() as int),
{
    let mut out = String::new();
    let mut i: usize = from;
    while i < chars.len()
        invariant
            from <= i <= chars@.len(),
            out@ == chars@.subrange(from as int, i as int),
        decreases chars.len() - i,
    {
        push_char(&mut out, chars[i]);
        assert(out@ =~= chars@.subrange(from as int, i + 1));
        i = i + 1;
    }
    out
}

impl OutputLog {
    /// An empty log.
    pub fn new() -> (r: OutputLog)
        ensures
            r@ == Seq::<char>::empty(),
    {
        OutputLog { chars: Vec::new() }
    }

    /// Number of characters held.
    pub fn len(&self) -> (r: usize)
        ensures
            r == self@.len(),
    {
        self.chars.len()
    }

    /// Appends `text` at the end.
    pub fn append(&mut self, text: &str)
        ensures
            final(self)@ == old(self)@ + text@,
    {
        let ghost start = self@;
        for c in it: text.chars()
            invariant
                it.seq() == text@,
                self@ == start + text@.subrange(0, it.index() as int),
        {
            let ghost i = it.index() as int;
            self.chars.push(c);
            assert(self@ =~= start + text@.subrange(0, i + 1));
        }
        assert(text@.subrange(0, text@.len() as int) =~= text@);
    }

    /// Filters `decoded` output and appends what remains.
    pub fn append_output(&mut self, decoded: &str)
        ensures
            final(self)@ == old(self)@ + stripped(decoded@),
    {
        let text = strip_ansi(decoded);
        self.append(text.as_str());
    }

    /// Decodes a chunk of raw terminal output, filters it and appends what
    /// remains.
    pub fn ingest(&mut self, bytes: &[u8])
        ensures
            final(self)@ == old(self)@ + stripped(lossy_text(bytes@)),
    {
        let decoded = decode_lossy(bytes);
        self.append_output(decoded.as_str());
    }

    /// Everything after `*offset`, moving `*offset` to the end; nothing, with
    /// the offset left as it was, when it is already at or past the end.
    pub fn read_since(&self, offset: &mut usize) -> (r: String)
        ensures
            (r@, *final(offset) as nat) == read_step(self@, *old(offset) as nat),
    {
        if *offset >= self.chars.len() {
            return String::new();
        }
        let r = string_from(&self.chars, *offset);
        *offset = self.chars.len();
        r
    }

    /// The whole log.
    pub fn contents(&self) -> (r: String)
        ensures
            r@ == self@,
    {
        let r = string_from(&self.chars, 0);
        assert(self@.subrange(0, self@.len() as int) =~= self@);
        r
    }
}

} // verus!
