//! Removal of terminal control sequences from decoded output.

use vstd::prelude::*;
use crate::text::push_char;

verus! {

/// The escape character that opens every control sequence.
pub const ESC: char = '\u{1b}';

/// Where the filter stands between two characters.
#[derive(Clone, Copy, Debug, PartialEq, Eq, Structural)]
pub enum FilterState {
    /// Ordinary text: characters are kept.
    Text,
    /// Just after an escape character.
    Escape,
    /// Inside a `ESC [` sequence, waiting for its final character.
    Csi,
}

/// A character in `@` ..= `~`, which ends a `ESC [` sequence.
pub open spec fn is_csi_final(c: char) -> bool {
    0x40 <= (c as u32) && (c as u32) <= 0x7e
}

/// What the filter emits for `s` when it starts in state `st`.
pub open spec fn filter_from(s: Seq<char>, st: FilterState) -> Seq<char>
    decreases s.len(),
{
    if s.len() == 0 {
        Seq::empty()
    } else {
        let c = s[0];
        let rest = s.drop_first();
        match st {
            FilterState::Text => if c == ESC {
                filter_from(rest, FilterState::Escape)
            } else {
                seq![c] + filter_from(rest, FilterState::Text)
            },
            FilterState::Escape => if c == '[' {
                filter_from(rest, FilterState::Csi)
            } else if c == ESC {
                filter_from(rest, FilterState::Escape)
            } else {
                seq![c] + filter_from(rest, FilterState::Text)
            },
            FilterState::Csi => if is_csi_final(c) {
                filter_from(rest, FilterState::Text)
            } else {
                filter_from(rest, FilterState::Csi)
            },
        }
    }
}

/// The text that remains of `s` once its control sequences are removed.
pub open spec fn stripped(s: Seq<char>) -> Seq<char> {
    filter_from(s, FilterState::Text)
}

/// Text without escape characters passes the filter unchanged.
pub proof fn lemma_plain_text_unchanged(s: Seq<char>)
    requires
        forall|i: int| 0 <= i < s.len() ==> s[i] != ESC,
    ensures
        stripped(s) == s,
    decreases s.len(),
{
    if s.len() > 0 {
        let rest = s.drop_first();
        assert forall|i: int| 0 <= i < rest.len() implies rest[i] != ESC by {
            assert(rest[i] == s[i + 1]);
        }
        lemma_plain_text_unchanged(rest);
        assert(s =~= seq![s[0]] + rest);
    }
}

/// Removes `ESC [ ... final` sequences and lone escape characters from
/// `input`; every other character is kept in order.
pub fn strip_ansi(input: &str) -> (r: String)
    ensures
        r@ == stripped(input@),
{
    let mut out = String::new();
    let mut st = FilterState::Text;
    let ghost s = input@;
    proof {
        assert(s.subrange(0, s.len() as int) =~= s);
        assert(out@ + stripped(s) =~= stripped(s));
    }
    for c in it: input.chars()
        invariant
            it.seq() == s,
            out@ + filter_from(s.subrange(it.index() as int, s.len() as int), st)
                == stripped(s),
    {
        let ghost i = it.index() as int;
        let ghost out0 = out@;
        let ghost st0 = st;
        let ghost tail = s.subrange(i, s.len() as int);
        let ghost rest = s.subrange(i + 1, s.len() as int);
        proof {
            assert(tail[0] == c);
            assert(tail.drop_first() =~= rest);
        }
        match st {
            FilterState::Text => {
                if c == ESC {
                    st = FilterState::Escape;
                } else {
                    push_char(&mut out, c);
                }
            },
            FilterState::Escape => {
                if c == '[' {
                    st = FilterState::Csi;
                } else if c == ESC {
                    st = FilterState::Escape;
                } else {
                    push_char(&mut out, c);
                    st = FilterState::Text;
                }
            },
            FilterState::Csi => {
                if 0x40 <= (c as u32) && (c as u32) <= 0x7e {
                    st = FilterState::Text;
                }
            },
        }
        proof {
            if out@ == out0 {
                assert(filter_from(tail, st0) == filter_from(rest, st));
            } else {
                assert(out@ == out0.push(c));
                assert(filter_from(tail, st0) == seq![c] + filter_from(rest, st));
                assert(out0 + (seq![c] + filter_from(rest, st)) =~= out@ + filter_from(rest, st));
            }
        }
    }
    proof {
        assert(s.subrange(s.len() as int, s.len() as int) =~= Seq::<char>::empty());
        assert(out@ =~= out@ + Seq::<char>::empty());
    }
    out
}

} // verus!
