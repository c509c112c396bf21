//! Removing recognized SGR escape sequences from rendered bytes.
//!
//! A recognized sequence is `ESC [`, a run of parameter bytes, and a final
//! `m`.  Anything else — including an `ESC` that does not open such a
//! sequence — is ordinary content and is kept.

use vstd::prelude::*;
use crate::sgr::{is_param_byte, all_param_bytes, ESC, LEFT_BRACKET, FINAL_M, DIGIT_ZERO,
    DIGIT_NINE, SEMICOLON};

verus! {

/// The length of the longest prefix of `s` made of parameter bytes.
pub open spec fn param_run(s: Seq<u8>) -> nat
    decreases s.len(),
{
    if s.len() > 0 && is_param_byte(s[0]) {
        1 + param_run(s.skip(1))
    } else {
        0
    }
}

/// Whether `s` opens with a complete recognized SGR sequence.
pub open spec fn starts_with_sgr(s: Seq<u8>) -> bool {
    &&& s.len() >= 2
    &&& s[0] == ESC
    &&& s[1] == LEFT_BRACKET
    &&& 2 + param_run(s.skip(2)) < s.len()
    &&& s[2 + param_run(s.skip(2)) as int] == FINAL_M
}

/// `s` with every recognized SGR escape sequence removed.
pub open spec fn strip_sgr_seq(s: Seq<u8>) -> Seq<u8>
    decreases s.len(),
{
    if s.len() == 0 {
        Seq::empty()
    } else if starts_with_sgr(s) {
        strip_sgr_seq(s.skip(3 + param_run(s.skip(2)) as int))
    } else {
        seq![s[0]] + strip_sgr_seq(s.skip(1))
    }
}

/// `s` holds no escape byte.
pub open spec fn escape_free(s: Seq<u8>) -> bool {
    forall|i: int| 0 <= i < s.len() ==> s[i] != ESC
}

/// Whether `b` continues a UTF-8 character rather than starting one.
pub open spec fn is_continuation_byte(b: u8) -> bool {
    128 <= b && b <= 191
}

/// The number of UTF-8 characters the bytes of `s` spell: one per byte that
/// starts a character.
pub open spec fn char_count(s: Seq<u8>) -> nat
    decreases s.len(),
{
    if s.len() == 0 {
        0
    } else {
        (if is_continuation_byte(s[0]) {
            0nat
        } else {
            1nat
        }) + char_count(s.skip(1))
    }
}

/// Characters are counted segment by segment.
pub proof fn lemma_char_count_concat(a: Seq<u8>, b: Seq<u8>)
    ensures
        char_count(a + b) == char_count(a) + char_count(b),
    decreases a.len(),
{
    if a.len() == 0 {
        assert(a + b =~= b);
    } else {
        assert((a + b)[0] == a[0]);
        assert((a + b).skip(1) =~= a.skip(1) + b);
        lemma_char_count_concat(a.skip(1), b);
    }
}

/// Counts the UTF-8 characters the bytes of `s` spell.
pub fn count_chars(s: &Vec<u8>) -> (n: usize)
    ensures
        n == char_count(s@),
{
    let mut n: usize = 0;
    let mut i: usize = 0;
    proof {
        assert(s@.skip(0) =~= s@);
    }
    while i < s.len()
        invariant
            i <= s.len(),
            n <= i,
            n + char_count(s@.skip(i as int)) == char_count(s@),
        decreases s.len() - i,
    {
        proof {
            assert(s@.skip(i as int)[0] == s@[i as int]);
            assert(s@.skip(i as int).skip(1) =~= s@.skip(i as int + 1));
        }
        let b = s[i];
        if !(128 <= b && b <= 191) {
            n = n + 1;
        }
        i = i + 1;
    }
    proof {
        assert(s@.skip(s@.len() as int) =~= Seq::<u8>::empty());
    }
    n
}

/// A complete SGR sequence as a stand-alone run of bytes: `ESC [`, parameter
/// bytes only, and a final `m`.
pub open spec fn is_sgr_sequence(t: Seq<u8>) -> bool {
    &&& t.len() >= 3
    &&& t[0] == ESC
    &&& t[1] == LEFT_BRACKET
    &&& t.last() == FINAL_M
    &&& all_param_bytes(t.subrange(2, t.len() - 1))
}

/// The parameter run of a sequence of parameter bytes followed by anything
/// that is not a parameter byte covers exactly the parameter bytes.
proof fn lemma_param_run_exact(p: Seq<u8>, rest: Seq<u8>)
    requires
        all_param_bytes(p),
        rest.len() == 0 || !is_param_byte(rest[0]),
    ensures
        param_run(p + rest) == p.len(),
    decreases p.len(),
{
    if p.len() == 0 {
        assert(p + rest =~= rest);
    } else {
        assert((p + rest)[0] == p[0]);
        assert((p + rest).skip(1) =~= p.skip(1) + rest);
        assert(all_param_bytes(p.skip(1)));
        lemma_param_run_exact(p.skip(1), rest);
    }
}

/// Stripping drops a leading complete SGR sequence.
pub proof fn lemma_strip_sgr_prefix(t: Seq<u8>, rest: Seq<u8>)
    requires
        is_sgr_sequence(t),
    ensures
        strip_sgr_seq(t + rest) == strip_sgr_seq(rest),
{
    let s = t + rest;
    let p = t.subrange(2, t.len() - 1);
    assert(s.skip(2) =~= p + (seq![FINAL_M] + rest));
    lemma_param_run_exact(p, seq![FINAL_M] + rest);
    assert(param_run(s.skip(2)) == p.len());
    assert(s[2 + p.len() as int] == t[t.len() - 1]);
    assert(starts_with_sgr(s));
    assert(s.skip(3 + p.len() as int) =~= rest);
}

/// Stripping passes escape-free bytes through unchanged.
pub proof fn lemma_strip_escape_free(s: Seq<u8>, rest: Seq<u8>)
    requires
        escape_free(s),
    ensures
        strip_sgr_seq(s + rest) == s + strip_sgr_seq(rest),
    decreases s.len(),
{
    if s.len() == 0 {
        assert(s + rest =~= rest);
        assert(s + strip_sgr_seq(rest) =~= strip_sgr_seq(rest));
    } else {
        let c = s + rest;
        assert(c[0] == s[0]);
        assert(c[0] != ESC);
        assert(!starts_with_sgr(c));
        assert(c.skip(1) =~= s.skip(1) + rest);
        assert(escape_free(s.skip(1)));
        lemma_strip_escape_free(s.skip(1), rest);
        assert(seq![s[0]] + (s.skip(1) + strip_sgr_seq(rest)) =~= s + strip_sgr_seq(rest));
    }
}

/// Removes every recognized SGR escape sequence from `s`, keeping all other
/// bytes in order.
pub fn strip_sgr(s: &Vec<u8>) -> (r: Vec<u8>)
    ensures
        r@ == strip_sgr_seq(s@),
{
    let mut r: Vec<u8> = Vec::new();
    let mut i: usize = 0;
    proof {
        assert(s@.skip(0) =~= s@);
        assert(Seq::<u8>::empty() + strip_sgr_seq(s@) =~= strip_sgr_seq(s@));
    }
    while i < s.len()
        invariant
            i <= s.len(),
            strip_sgr_seq(s@) == r@ + strip_sgr_seq(s@.skip(i as int)),
        decreases s.len() - i,
    {
        let ghost tail = s@.skip(i as int);
        if s[i] == ESC && i + 1 < s.len() && s[i + 1] == LEFT_BRACKET {
            let mut j: usize = i + 2;
            while j < s.len() && is_param(s[j])
                invariant
                    i + 2 <= j <= s.len(),
                    i + 1 < s.len(),
                    forall|k: int| i + 2 <= k < j ==> is_param_byte(s@[k]),
                decreases s.len() - j,
            {
                j = j + 1;
            }
            proof {
                let p = s@.subrange(i as int + 2, j as int);
                let after = s@.skip(j as int);
                assert(tail.skip(2) =~= p + after);
                assert(all_param_bytes(p));
                assert(after.len() == 0 || !is_param_byte(after[0]));
                lemma_param_run_exact(p, after);
                assert(param_run(tail.skip(2)) == j - i - 2);
            }
            if j < s.len() && s[j] == FINAL_M {
                proof {
                    assert(tail[2 + (j - i - 2)] == s@[j as int]);
                    assert(starts_with_sgr(tail));
                    assert(tail.skip(3 + (j - i - 2)) =~= s@.skip(j as int + 1));
                    assert(strip_sgr_seq(tail) == strip_sgr_seq(s@.skip(j as int + 1)));
                }
                i = j + 1;
            } else {
                proof {
                    if starts_with_sgr(tail) {
                        assert(tail[2 + (j - i - 2)] == s@[j as int]);
                        assert(false);
                    }
                    assert(tail.skip(1) =~= s@.skip(i as int + 1));
                    assert(r@.push(s@[i as int]) + strip_sgr_seq(s@.skip(i as int + 1)) =~= r@
                        + strip_sgr_seq(tail));
                }
                r.push(s[i]);
                i = i + 1;
            }
        } else {
            proof {
                if tail[0] == ESC {
                    if starts_with_sgr(tail) {
                        assert(tail[1] == s@[i as int + 1]);
                        assert(false);
                    }
                } else {
                    assert(!starts_with_sgr(tail));
                }
                assert(tail.skip(1) =~= s@.skip(i as int + 1));
                assert(r@.push(s@[i as int]) + strip_sgr_seq(s@.skip(i as int + 1)) =~= r@
                    + strip_sgr_seq(tail));
            }
            r.push(s[i]);
            i = i + 1;
        }
    }
    proof {
        assert(s@.skip(s@.len() as int) =~= Seq::<u8>::empty());
        assert(r@ + Seq::<u8>::empty() =~= r@);
    }
    r
}

/// Whether `b` may appear between `ESC [` and the final `m`.
fn is_param(b: u8) -> (r: bool)
    ensures
        r == is_param_byte(b),
{
    (DIGIT_ZERO <= b && b <= DIGIT_NINE) || b == SEMICOLON
}

} // verus!
