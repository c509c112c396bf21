//! The laws of the styling model, proved once and for all: rendering is a
//! pure function of the chain and the text, an undecorated wrapper is
//! invisible, nested wrappings produce properly nested escape pairs, padding
//! is computed against the visible text, and stripping undoes rendering.

use vstd::prelude::*;
use crate::decoration::{Decoration, lemma_groups_wellformed};
use crate::styled::{Styled, render_of, space_bytes, visible_len, pad_of, padded_render};
use crate::strip::{strip_sgr_seq, escape_free, is_sgr_sequence, lemma_strip_sgr_prefix,
    lemma_strip_escape_free, char_count, lemma_char_count_concat};
use crate::sgr::{is_param_byte, join_params, ESC, LEFT_BRACKET, FINAL_M, DIGIT_ZERO, SPACE};

verus! {

/// The number of escape bytes in `s`.
pub open spec fn escape_count(s: Seq<u8>) -> nat
    decreases s.len(),
{
    if s.len() == 0 {
        0
    } else {
        (if s[0] == ESC {
            1nat
        } else {
            0nat
        }) + escape_count(s.skip(1))
    }
}

/// Escape bytes are counted segment by segment.
pub proof fn lemma_escape_count_concat(a: Seq<u8>, b: Seq<u8>)
    ensures
        escape_count(a + b) == escape_count(a) + escape_count(b),
    decreases a.len(),
{
    if a.len() == 0 {
        assert(a + b =~= b);
    } else {
        assert((a + b)[0] == a[0]);
        assert((a + b).skip(1) =~= a.skip(1) + b);
        lemma_escape_count_concat(a.skip(1), b);
    }
}

/// Escape-free bytes contain no escape byte to count.
pub proof fn lemma_escape_count_free(s: Seq<u8>)
    requires
        escape_free(s),
    ensures
        escape_count(s) == 0,
    decreases s.len(),
{
    if s.len() > 0 {
        assert(escape_free(s.skip(1)));
        lemma_escape_count_free(s.skip(1));
    }
}

/// A stand-alone SGR sequence holds exactly one escape byte.
pub proof fn lemma_escape_count_sgr(t: Seq<u8>)
    requires
        is_sgr_sequence(t),
    ensures
        escape_count(t) == 1,
{
    let body = t.skip(1);
    assert forall|i: int| 0 <= i < body.len() implies body[i] != ESC by {
        assert(body[i] == t[i + 1]);
        if i + 1 < t.len() - 1 && i + 1 >= 2 {
            assert(t[i + 1] == t.subrange(2, t.len() - 1)[i - 1]);
            assert(is_param_byte(t[i + 1]));
        }
        if i + 1 == 1 {
            assert(t[i + 1] == LEFT_BRACKET);
        }
        if i + 1 == t.len() - 1 {
            assert(t[i + 1] == FINAL_M);
        }
    }
    lemma_escape_count_free(body);
    assert(t =~= seq![t[0]] + body);
    lemma_escape_count_concat(seq![t[0]], body);
    assert(escape_count(seq![t[0]].skip(1)) == 0) by {
        assert(seq![t[0]].skip(1) =~= Seq::<u8>::empty());
    }
}

/// The entry and exit sequences of a decorating record are well-formed
/// stand-alone SGR sequences.
pub proof fn lemma_entry_exit_wellformed(d: Decoration)
    requires
        !d.spec_is_plain(),
    ensures
        is_sgr_sequence(d.entry_seq()),
        is_sgr_sequence(d.exit_seq()),
{
    lemma_groups_wellformed(d);
    let params = join_params(d.groups());
    let entry = d.entry_seq();
    assert(entry =~= seq![ESC, LEFT_BRACKET] + params + seq![FINAL_M]);
    assert(entry.subrange(2, entry.len() - 1) =~= params);
    let exit = d.exit_seq();
    assert(exit.subrange(2, exit.len() - 1) =~= seq![DIGIT_ZERO]);
    assert(is_param_byte(DIGIT_ZERO));
}

/// Rendering is deterministic: it depends on nothing but the decoration
/// record and the wrapped text, so two wrappers that agree on both render to
/// identical bytes, however and whenever they are rendered.
pub proof fn lemma_render_deterministic(a: Styled, b: Styled)
    requires
        a.dec == b.dec,
        a.text@ == b.text@,
    ensures
        a.rendered() == b.rendered(),
{
}

/// Identity law: the record with no attributes and no colors renders any
/// text to exactly that text, with no stray escape bytes.
pub proof fn lemma_identity(d: Decoration, text: Seq<u8>)
    requires
        d.spec_is_plain(),
    ensures
        render_of(d, text) == text,
{
    assert(render_of(d, text) =~= text);
}

/// Nesting law: wrapping an already-wrapped value renders to the outer entry
/// sequence, the complete inner rendering, and the outer exit sequence — so
/// the outer escape pair strictly surrounds the inner one, all four escape
/// sequences are well formed, and the whole output holds exactly four escape
/// bytes (two entry/exit pairs) around escape-free text.
pub proof fn lemma_nesting(outer: Decoration, inner: Decoration, text: Seq<u8>)
    requires
        !outer.spec_is_plain(),
        !inner.spec_is_plain(),
        escape_free(text),
    ensures
        render_of(outer, render_of(inner, text)) == outer.entry_seq() + inner.entry_seq() + text
            + inner.exit_seq() + outer.exit_seq(),
        is_sgr_sequence(outer.entry_seq()),
        is_sgr_sequence(inner.entry_seq()),
        is_sgr_sequence(inner.exit_seq()),
        is_sgr_sequence(outer.exit_seq()),
        escape_count(render_of(outer, render_of(inner, text))) == 4,
{
    lemma_entry_exit_wellformed(outer);
    lemma_entry_exit_wellformed(inner);
    let whole = outer.entry_seq() + inner.entry_seq() + text + inner.exit_seq()
        + outer.exit_seq();
    assert(render_of(outer, render_of(inner, text)) =~= whole);
    lemma_escape_count_concat(outer.entry_seq() + inner.entry_seq() + text + inner.exit_seq(),
        outer.exit_seq());
    lemma_escape_count_concat(outer.entry_seq() + inner.entry_seq() + text, inner.exit_seq());
    lemma_escape_count_concat(outer.entry_seq() + inner.entry_seq(), text);
    lemma_escape_count_concat(outer.entry_seq(), inner.entry_seq());
    lemma_escape_count_sgr(outer.entry_seq());
    lemma_escape_count_sgr(inner.entry_seq());
    lemma_escape_count_sgr(inner.exit_seq());
    lemma_escape_count_sgr(outer.exit_seq());
    lemma_escape_count_free(text);
}

/// Width transparency: under a minimum-width rule the padding is computed
/// against the visible width alone — the characters left after stripping the
/// escape sequences, so neither the escape bytes nor UTF-8 continuation
/// bytes are ever counted.  A text whose visible width falls short of the
/// rule gains exactly the missing spaces, before the entry escape; one at
/// least as wide gains none; and for escape-free text the visible width of
/// the whole output is exactly the larger of the rule's width and the text's
/// own character count.
pub proof fn lemma_width_transparency(d: Decoration, text: Seq<u8>, width: nat)
    ensures
        visible_len(text) < width ==> padded_render(d, text, width) == space_bytes(
            (width - visible_len(text)) as nat,
        ) + render_of(d, text),
        visible_len(text) >= width ==> padded_render(d, text, width) == render_of(d, text),
        escape_free(text) ==> visible_len(text) == char_count(text),
        escape_free(text) ==> visible_len(padded_render(d, text, width)) == (
        if char_count(text) >= width {
            char_count(text)
        } else {
            width
        }),
{
    if visible_len(text) >= width {
        assert(padded_render(d, text, width) =~= render_of(d, text));
    }
    if escape_free(text) {
        assert(text =~= text + Seq::<u8>::empty());
        lemma_strip_escape_free(text, Seq::<u8>::empty());
        assert(text + strip_sgr_seq(Seq::<u8>::empty()) =~= text);
        assert(strip_sgr_seq(text) == text);
        let pad = pad_of(text, width);
        lemma_space_bytes_len(pad);
        lemma_strip_escape_free(space_bytes(pad), render_of(d, text));
        lemma_round_trip(d, text);
        assert(strip_sgr_seq(padded_render(d, text, width)) == space_bytes(pad) + text);
        lemma_char_count_concat(space_bytes(pad), text);
    }
}

/// `n` spaces are `n` bytes, `n` visible characters, and escape-free.
pub proof fn lemma_space_bytes_len(n: nat)
    ensures
        space_bytes(n).len() == n,
        escape_free(space_bytes(n)),
        char_count(space_bytes(n)) == n,
    decreases n,
{
    if n > 0 {
        lemma_space_bytes_len((n - 1) as nat);
        assert forall|i: int| 0 <= i < space_bytes(n).len() implies space_bytes(n)[i] != ESC by {
            if i < n - 1 {
                assert(space_bytes(n)[i] == space_bytes((n - 1) as nat)[i]);
            } else {
                assert(space_bytes(n)[i] == SPACE);
            }
        }
        lemma_char_count_concat(space_bytes((n - 1) as nat), seq![SPACE]);
        assert(seq![SPACE].skip(1) =~= Seq::<u8>::empty());
        assert(char_count(Seq::<u8>::empty()) == 0);
        assert(char_count(seq![SPACE]) == 1);
    }
}

/// Round trip: rendering a piece of escape-free text under any decoration and
/// then stripping all recognized escape sequences reproduces the text
/// exactly.
pub proof fn lemma_round_trip(d: Decoration, text: Seq<u8>)
    requires
        escape_free(text),
    ensures
        strip_sgr_seq(render_of(d, text)) == text,
{
    if d.spec_is_plain() {
        lemma_identity(d, text);
        lemma_strip_empty_tail(text);
    } else {
        lemma_entry_exit_wellformed(d);
        assert(render_of(d, text) =~= d.entry_seq() + (text + d.exit_seq()));
        lemma_strip_sgr_prefix(d.entry_seq(), text + d.exit_seq());
        lemma_strip_escape_free(text, d.exit_seq());
        assert(d.exit_seq() =~= d.exit_seq() + Seq::<u8>::empty());
        lemma_strip_sgr_prefix(d.exit_seq(), Seq::<u8>::empty());
        assert(text + strip_sgr_seq(d.exit_seq()) =~= text);
    }
}

/// Round trip through a nested wrapping: stripping removes both escape pairs
/// and returns the innermost text.
pub proof fn lemma_round_trip_nested(outer: Decoration, inner: Decoration, text: Seq<u8>)
    requires
        escape_free(text),
    ensures
        strip_sgr_seq(render_of(outer, render_of(inner, text))) == text,
{
    if outer.spec_is_plain() {
        lemma_identity(outer, render_of(inner, text));
        lemma_round_trip(inner, text);
    } else {
        lemma_entry_exit_wellformed(outer);
        let mid = render_of(inner, text);
        assert(render_of(outer, mid) =~= outer.entry_seq() + (mid + outer.exit_seq()));
        lemma_strip_sgr_prefix(outer.entry_seq(), mid + outer.exit_seq());
        if inner.spec_is_plain() {
            lemma_identity(inner, text);
            lemma_strip_exit_tail(text, outer);
        } else {
            lemma_entry_exit_wellformed(inner);
            assert(mid + outer.exit_seq() =~= inner.entry_seq() + (text + (inner.exit_seq()
                + outer.exit_seq())));
            lemma_strip_sgr_prefix(inner.entry_seq(), text + (inner.exit_seq()
                + outer.exit_seq()));
            lemma_strip_escape_free(text, inner.exit_seq() + outer.exit_seq());
            lemma_strip_sgr_prefix(inner.exit_seq(), outer.exit_seq());
            assert(outer.exit_seq() =~= outer.exit_seq() + Seq::<u8>::empty());
            lemma_strip_sgr_prefix(outer.exit_seq(), Seq::<u8>::empty());
            assert(text + strip_sgr_seq(inner.exit_seq() + outer.exit_seq()) =~= text);
        }
    }
}

/// Stripping escape-free text changes nothing.
proof fn lemma_strip_empty_tail(text: Seq<u8>)
    requires
        escape_free(text),
    ensures
        strip_sgr_seq(text) == text,
{
    assert(text =~= text + Seq::<u8>::empty());
    lemma_strip_escape_free(text, Seq::<u8>::empty());
    assert(text + strip_sgr_seq(Seq::<u8>::empty()) =~= text);
}

/// Stripping escape-free text followed by one exit sequence yields the text.
proof fn lemma_strip_exit_tail(text: Seq<u8>, d: Decoration)
    requires
        escape_free(text),
        !d.spec_is_plain(),
    ensures
        strip_sgr_seq(text + d.exit_seq()) == text,
{
    lemma_entry_exit_wellformed(d);
    lemma_strip_escape_free(text, d.exit_seq());
    assert(d.exit_seq() =~= d.exit_seq() + Seq::<u8>::empty());
    lemma_strip_sgr_prefix(d.exit_seq(), Seq::<u8>::empty());
    assert(text + strip_sgr_seq(d.exit_seq()) =~= text);
}

} // verus!
