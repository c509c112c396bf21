//! Low-level building blocks for SGR ("Select Graphic Rendition") escape
//! sequences: the byte constants of the wire format, decimal rendering of
//! parameter numbers, and joining parameter groups with semicolons.

use vstd::prelude::*;

verus! {

/// The escape byte that opens every ANSI control sequence.
pub const ESC: u8 = 27;

/// `[`, the second byte of a control sequence introducer.
pub const LEFT_BRACKET: u8 = 91;

/// `m`, the final byte that marks a control sequence as SGR.
pub const FINAL_M: u8 = 109;

/// `;`, the separator between SGR parameters.
pub const SEMICOLON: u8 = 59;

/// `0`, the lowest decimal digit byte.
pub const DIGIT_ZERO: u8 = 48;

/// `9`, the highest decimal digit byte.
pub const DIGIT_NINE: u8 = 57;

/// The space byte used for width padding.
pub const SPACE: u8 = 32;

/// The decimal rendering of `n`, most significant digit first.
pub open spec fn dec_digits(n: nat) -> Seq<u8>
    decreases n,
{
    if n < 10 {
        seq![(DIGIT_ZERO + n) as u8]
    } else {
        dec_digits(n / 10) + seq![(DIGIT_ZERO + n % 10) as u8]
    }
}

/// A byte that may appear between `ESC [` and the final `m` of an SGR
/// sequence: a decimal digit or a semicolon.
pub open spec fn is_param_byte(b: u8) -> bool {
    (DIGIT_ZERO <= b && b <= DIGIT_NINE) || b == SEMICOLON
}

/// Every byte of `s` is an SGR parameter byte.
pub open spec fn all_param_bytes(s: Seq<u8>) -> bool {
    forall|i: int| 0 <= i < s.len() ==> is_param_byte(s[i])
}

/// A decimal rendering consists of digit bytes only.
pub proof fn lemma_dec_digits_param(n: nat)
    ensures
        all_param_bytes(dec_digits(n)),
        dec_digits(n).len() >= 1,
    decreases n,
{
    if n >= 10 {
        lemma_dec_digits_param(n / 10);
        assert forall|i: int| 0 <= i < dec_digits(n).len() implies is_param_byte(
            dec_digits(n)[i],
        ) by {
            if i < dec_digits(n / 10).len() {
                assert(dec_digits(n)[i] == dec_digits(n / 10)[i]);
            }
        }
    }
}

/// Appends the decimal rendering of `n` to `v`.
pub fn push_decimal(v: &mut Vec<u8>, n: u8)
    ensures
        final(v)@ == old(v)@ + dec_digits(n as nat),
{
    proof {
        if n >= 100 {
            assert((n as nat / 10) / 10 == n as nat / 100) by (nonlinear_arith);
        }
    }
    if n >= 100 {
        v.push(DIGIT_ZERO + n / 100);
    }
    if n >= 10 {
        v.push(DIGIT_ZERO + (n / 10) % 10);
    }
    v.push(DIGIT_ZERO + n % 10);
    proof {
        reveal_with_fuel(dec_digits, 3);
        assert(v@ =~= old(v)@ + dec_digits(n as nat));
    }
}

/// The SGR parameter list formed by the groups of `gs`, separated by
/// semicolons.  Each group is itself a run of parameter bytes, e.g. `1` or
/// `38;5;200`.
pub open spec fn join_params(gs: Seq<Seq<u8>>) -> Seq<u8>
    decreases gs.len(),
{
    if gs.len() == 0 {
        Seq::empty()
    } else if gs.len() == 1 {
        gs[0]
    } else {
        gs[0] + seq![SEMICOLON] + join_params(gs.skip(1))
    }
}

/// Appending one more group extends the joined list by a semicolon and the
/// group.
pub proof fn lemma_join_push(gs: Seq<Seq<u8>>, g: Seq<u8>)
    requires
        gs.len() >= 1,
    ensures
        join_params(gs.push(g)) == join_params(gs) + seq![SEMICOLON] + g,
    decreases gs.len(),
{
    if gs.len() == 1 {
        assert(gs.push(g).skip(1) =~= seq![g]);
        assert(join_params(seq![g]) == g);
        assert(join_params(gs.push(g)) =~= join_params(gs) + seq![SEMICOLON] + g);
    } else {
        assert(gs.push(g).skip(1) =~= gs.skip(1).push(g));
        lemma_join_push(gs.skip(1), g);
        assert(join_params(gs.push(g)) =~= join_params(gs) + seq![SEMICOLON] + g);
    }
}

/// Joining groups of parameter bytes yields parameter bytes only.
pub proof fn lemma_join_all_param(gs: Seq<Seq<u8>>)
    requires
        forall|i: int| 0 <= i < gs.len() ==> all_param_bytes(#[trigger] gs[i]),
    ensures
        all_param_bytes(join_params(gs)),
    decreases gs.len(),
{
    if gs.len() >= 2 {
        assert(forall|i: int|
            0 <= i < gs.skip(1).len() ==> all_param_bytes(#[trigger] gs.skip(1)[i]));
        lemma_join_all_param(gs.skip(1));
        let joined = join_params(gs);
        assert forall|i: int| 0 <= i < joined.len() implies is_param_byte(joined[i]) by {
            let head = gs[0];
            if i < head.len() {
                assert(joined[i] == head[i]);
            } else if i == head.len() {
                assert(joined[i] == SEMICOLON);
            } else {
                assert(joined[i] == join_params(gs.skip(1))[i - head.len() - 1]);
            }
        }
    }
}

/// Appends every byte of `other` to `v`.
pub fn push_all(v: &mut Vec<u8>, other: &Vec<u8>)
    ensures
        final(v)@ == old(v)@ + other@,
{
    let mut k: usize = 0;
    while k < other.len()
        invariant
            k <= other.len(),
            v@ == old(v)@ + other@.take(k as int),
        decreases other.len() - k,
    {
        v.push(other[k]);
        proof {
            assert(other@.take(k as int).push(other@[k as int]) =~= other@.take(k as int + 1));
        }
        k = k + 1;
    }
    proof {
        assert(other@.take(other@.len() as int) =~= other@);
    }
}

/// Joins the groups of `gs` with semicolons.
pub fn join_groups(gs: &Vec<Vec<u8>>) -> (r: Vec<u8>)
    ensures
        r@ == join_params(gs@.map_values(|g: Vec<u8>| g@)),
{
    let ghost model = gs@.map_values(|g: Vec<u8>| g@);
    let mut r: Vec<u8> = Vec::new();
    if gs.len() == 0 {
        return r;
    }
    push_all(&mut r, &gs[0]);
    proof {
        assert(model.take(1) =~= seq![model[0]]);
        assert(r@ =~= join_params(model.take(1)));
    }
    let mut k: usize = 1;
    while k < gs.len()
        invariant
            1 <= k <= gs.len(),
            model == gs@.map_values(|g: Vec<u8>| g@),
            r@ == join_params(model.take(k as int)),
        decreases gs.len() - k,
    {
        r.push(SEMICOLON);
        push_all(&mut r, &gs[k]);
        proof {
            lemma_join_push(model.take(k as int), model[k as int]);
            assert(model.take(k as int).push(model[k as int]) =~= model.take(k as int + 1));
            assert(r@ =~= join_params(model.take(k as int + 1)));
        }
        k = k + 1;
    }
    proof {
        assert(model.take(model.len() as int) =~= model);
    }
    r
}

} // verus!
