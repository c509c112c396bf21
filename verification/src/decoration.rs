//! The decoration record: which attributes are switched on and which colors
//! the two color slots hold, together with the entry and exit escape
//! sequences the record renders to.

use vstd::prelude::*;
use crate::color::{Color, lemma_color_params_param_bytes};
use crate::style::Style;
use crate::sgr::{dec_digits, all_param_bytes, join_params, lemma_dec_digits_param,
    lemma_join_all_param, push_decimal, push_all, join_groups, ESC, LEFT_BRACKET, FINAL_M,
    DIGIT_ZERO};

verus! {

/// The accumulated styling of one wrapping: a set of attribute flags plus an
/// optional foreground and background color.  A record with nothing set is
/// the identity and renders to empty entry and exit sequences.
#[derive(Clone, Copy, Debug)]
pub struct Decoration {
    pub bold: bool,
    pub dim: bool,
    pub italic: bool,
    pub underline: bool,
    pub blink: bool,
    pub reverse: bool,
    pub hidden: bool,
    pub strikethrough: bool,
    pub fg: Option<Color>,
    pub bg: Option<Color>,
}

/// The parameter-group list contributed by one attribute flag: the
/// attribute's code if the flag is set, else nothing.
pub open spec fn opt_group(active: bool, group: Seq<u8>) -> Seq<Seq<u8>> {
    if active {
        seq![group]
    } else {
        Seq::empty()
    }
}

/// The parameter-group list contributed by a color slot.
pub open spec fn color_group(slot: Option<Color>, base: nat) -> Seq<Seq<u8>> {
    match slot {
        Some(c) => seq![c.params(base)],
        None => Seq::empty(),
    }
}

impl Decoration {
    /// The record with no attributes and no colors set.
    pub open spec fn plain_spec() -> Decoration {
        Decoration {
            bold: false,
            dim: false,
            italic: false,
            underline: false,
            blink: false,
            reverse: false,
            hidden: false,
            strikethrough: false,
            fg: None,
            bg: None,
        }
    }

    /// Whether the record decorates nothing.
    pub open spec fn spec_is_plain(&self) -> bool {
        &&& !self.bold
        &&& !self.dim
        &&& !self.italic
        &&& !self.underline
        &&& !self.blink
        &&& !self.reverse
        &&& !self.hidden
        &&& !self.strikethrough
        &&& self.fg is None
        &&& self.bg is None
    }

    /// The SGR parameter groups of the record, in canonical order: the
    /// attributes as listed in the struct, then the foreground color, then
    /// the background color.
    pub open spec fn groups(self) -> Seq<Seq<u8>> {
        opt_group(self.bold, dec_digits(1)) + opt_group(self.dim, dec_digits(2)) + opt_group(
            self.italic,
            dec_digits(3),
        ) + opt_group(self.underline, dec_digits(4)) + opt_group(self.blink, dec_digits(5))
            + opt_group(self.reverse, dec_digits(7)) + opt_group(self.hidden, dec_digits(8))
            + opt_group(self.strikethrough, dec_digits(9)) + color_group(self.fg, 30)
            + color_group(self.bg, 40)
    }

    /// The escape sequence that switches the decoration on: one merged SGR
    /// sequence listing every active parameter group, or nothing for the
    /// plain record.
    pub open spec fn entry_seq(self) -> Seq<u8> {
        if self.spec_is_plain() {
            Seq::empty()
        } else {
            seq![ESC, LEFT_BRACKET] + join_params(self.groups()) + seq![FINAL_M]
        }
    }

    /// The escape sequence that restores the terminal default: a single
    /// reset-all sequence whenever anything is active, else nothing.
    pub open spec fn exit_seq(self) -> Seq<u8> {
        if self.spec_is_plain() {
            Seq::empty()
        } else {
            seq![ESC, LEFT_BRACKET, DIGIT_ZERO, FINAL_M]
        }
    }

    /// The identity record.
    pub fn plain() -> (d: Decoration)
        ensures
            d == Decoration::plain_spec(),
    {
        Decoration {
            bold: false,
            dim: false,
            italic: false,
            underline: false,
            blink: false,
            reverse: false,
            hidden: false,
            strikethrough: false,
            fg: None,
            bg: None,
        }
    }

    /// Whether the record decorates nothing.
    #[verifier::when_used_as_spec(spec_is_plain)]
    pub fn is_plain(&self) -> (b: bool)
        ensures
            b == self.spec_is_plain(),
    {
        !self.bold && !self.dim && !self.italic && !self.underline && !self.blink && !self.reverse
            && !self.hidden && !self.strikethrough && self.fg.is_none() && self.bg.is_none()
    }

    /// The record with the attribute `st` additionally switched on.
    pub open spec fn with_style_spec(self, st: Style) -> Decoration {
        match st {
            Style::Bold => Decoration { bold: true, ..self },
            Style::Dim => Decoration { dim: true, ..self },
            Style::Italic => Decoration { italic: true, ..self },
            Style::Underline => Decoration { underline: true, ..self },
            Style::Blink => Decoration { blink: true, ..self },
            Style::Reverse => Decoration { reverse: true, ..self },
            Style::Hidden => Decoration { hidden: true, ..self },
            Style::Strikethrough => Decoration { strikethrough: true, ..self },
        }
    }

    /// Switches the attribute `st` on; every other field is kept.
    pub fn with_style(self, st: Style) -> (d: Decoration)
        ensures
            d == self.with_style_spec(st),
    {
        let mut d = self;
        match st {
            Style::Bold => d.bold = true,
            Style::Dim => d.dim = true,
            Style::Italic => d.italic = true,
            Style::Underline => d.underline = true,
            Style::Blink => d.blink = true,
            Style::Reverse => d.reverse = true,
            Style::Hidden => d.hidden = true,
            Style::Strikethrough => d.strikethrough = true,
        }
        d
    }

    /// Sets the foreground color; a later call overwrites an earlier one.
    pub fn with_fg(self, c: Color) -> (d: Decoration)
        ensures
            d == (Decoration { fg: Some(c), ..self }),
    {
        let mut d = self;
        d.fg = Some(c);
        d
    }

    /// Sets the background color; a later call overwrites an earlier one.
    pub fn with_bg(self, c: Color) -> (d: Decoration)
        ensures
            d == (Decoration { bg: Some(c), ..self }),
    {
        let mut d = self;
        d.bg = Some(c);
        d
    }

    /// The union of two records: an attribute is on if it is on in either,
    /// and on each color slot `other` wins where it has a color set.
    pub open spec fn merge_spec(self, other: Decoration) -> Decoration {
        Decoration {
            bold: self.bold || other.bold,
            dim: self.dim || other.dim,
            italic: self.italic || other.italic,
            underline: self.underline || other.underline,
            blink: self.blink || other.blink,
            reverse: self.reverse || other.reverse,
            hidden: self.hidden || other.hidden,
            strikethrough: self.strikethrough || other.strikethrough,
            fg: if other.fg is Some {
                other.fg
            } else {
                self.fg
            },
            bg: if other.bg is Some {
                other.bg
            } else {
                self.bg
            },
        }
    }

    /// Merges `other` into `self`.
    pub fn merge(self, other: Decoration) -> (d: Decoration)
        ensures
            d == self.merge_spec(other),
    {
        Decoration {
            bold: self.bold || other.bold,
            dim: self.dim || other.dim,
            italic: self.italic || other.italic,
            underline: self.underline || other.underline,
            blink: self.blink || other.blink,
            reverse: self.reverse || other.reverse,
            hidden: self.hidden || other.hidden,
            strikethrough: self.strikethrough || other.strikethrough,
            fg: if other.fg.is_some() {
                other.fg
            } else {
                self.fg
            },
            bg: if other.bg.is_some() {
                other.bg
            } else {
                self.bg
            },
        }
    }

    /// Builds the active parameter groups in canonical order.
    fn group_list(&self) -> (gs: Vec<Vec<u8>>)
        ensures
            gs@.map_values(|g: Vec<u8>| g@) == self.groups(),
    {
        let mut gs: Vec<Vec<u8>> = Vec::new();
        let ghost g0 = opt_group(self.bold, dec_digits(1));
        let ghost g1 = g0 + opt_group(self.dim, dec_digits(2));
        let ghost g2 = g1 + opt_group(self.italic, dec_digits(3));
        let ghost g3 = g2 + opt_group(self.underline, dec_digits(4));
        let ghost g4 = g3 + opt_group(self.blink, dec_digits(5));
        let ghost g5 = g4 + opt_group(self.reverse, dec_digits(7));
        let ghost g6 = g5 + opt_group(self.hidden, dec_digits(8));
        let ghost g7 = g6 + opt_group(self.strikethrough, dec_digits(9));
        let ghost g8 = g7 + color_group(self.fg, 30);
        let ghost g9 = g8 + color_group(self.bg, 40);
        proof {
            assert(gs@.map_values(|g: Vec<u8>| g@) =~= Seq::<Seq<u8>>::empty());
        }
        if self.bold {
            push_group(&mut gs, code_group(1));
        }
        proof {
            assert(gs@.map_values(|g: Vec<u8>| g@) == g0);
        }
        if self.dim {
            push_group(&mut gs, code_group(2));
        }
        proof {
            if self.dim {
                lemma_push_concat(g0, dec_digits(2));
            } else {
                lemma_concat_empty_group(g0);
            }
            assert(gs@.map_values(|g: Vec<u8>| g@) == g1);
        }
        if self.italic {
            push_group(&mut gs, code_group(3));
        }
        proof {
            if self.italic {
                lemma_push_concat(g1, dec_digits(3));
            } else {
                lemma_concat_empty_group(g1);
            }
            assert(gs@.map_values(|g: Vec<u8>| g@) == g2);
        }
        if self.underline {
            push_group(&mut gs, code_group(4));
        }
        proof {
            if self.underline {
                lemma_push_concat(g2, dec_digits(4));
            } else {
                lemma_concat_empty_group(g2);
            }
            assert(gs@.map_values(|g: Vec<u8>| g@) == g3);
        }
        if self.blink {
            push_group(&mut gs, code_group(5));
        }
        proof {
            if self.blink {
                lemma_push_concat(g3, dec_digits(5));
            } else {
                lemma_concat_empty_group(g3);
            }
            assert(gs@.map_values(|g: Vec<u8>| g@) == g4);
        }
        if self.reverse {
            push_group(&mut gs, code_group(7));
        }
        proof {
            if self.reverse {
                lemma_push_concat(g4, dec_digits(7));
            } else {
                lemma_concat_empty_group(g4);
            }
            assert(gs@.map_values(|g: Vec<u8>| g@) == g5);
        }
        if self.hidden {
            push_group(&mut gs, code_group(8));
        }
        proof {
            if self.hidden {
                lemma_push_concat(g5, dec_digits(8));
            } else {
                lemma_concat_empty_group(g5);
            }
            assert(gs@.map_values(|g: Vec<u8>| g@) == g6);
        }
        if self.strikethrough {
            push_group(&mut gs, code_group(9));
        }
        proof {
            if self.strikethrough {
                lemma_push_concat(g6, dec_digits(9));
            } else {
                lemma_concat_empty_group(g6);
            }
            assert(gs@.map_values(|g: Vec<u8>| g@) == g7);
        }
        match self.fg {
            Some(c) => {
                let mut g: Vec<u8> = Vec::new();
                c.push_fg_params(&mut g);
                proof {
                    assert(g@ =~= c.fg_params());
                }
                push_group(&mut gs, g);
            },
            None => {
                proof {
                    lemma_concat_empty_group(g7);
                }
            },
        }
        proof {
            if self.fg is Some {
                lemma_push_concat(g7, self.fg->0.fg_params());
            }
            assert(gs@.map_values(|g: Vec<u8>| g@) == g8);
        }
        match self.bg {
            Some(c) => {
                let mut g: Vec<u8> = Vec::new();
                c.push_bg_params(&mut g);
                proof {
                    assert(g@ =~= c.bg_params());
                }
                push_group(&mut gs, g);
            },
            None => {
                proof {
                    lemma_concat_empty_group(g8);
                }
            },
        }
        proof {
            if self.bg is Some {
                lemma_push_concat(g8, self.bg->0.bg_params());
            }
            assert(gs@.map_values(|g: Vec<u8>| g@) == g9);
            assert(g9 == self.groups());
        }
        gs
    }

    /// Renders the entry escape sequence of the record.
    pub fn render_entry(&self) -> (v: Vec<u8>)
        ensures
            v@ == self.entry_seq(),
    {
        let mut v: Vec<u8> = Vec::new();
        if self.is_plain() {
            return v;
        }
        v.push(ESC);
        v.push(LEFT_BRACKET);
        let gs = self.group_list();
        let joined = join_groups(&gs);
        push_all(&mut v, &joined);
        v.push(FINAL_M);
        proof {
            assert(v@ =~= self.entry_seq());
        }
        v
    }

    /// Renders the exit escape sequence of the record.
    pub fn render_exit(&self) -> (v: Vec<u8>)
        ensures
            v@ == self.exit_seq(),
    {
        let mut v: Vec<u8> = Vec::new();
        if self.is_plain() {
            return v;
        }
        v.push(ESC);
        v.push(LEFT_BRACKET);
        v.push(DIGIT_ZERO);
        v.push(FINAL_M);
        proof {
            assert(v@ =~= self.exit_seq());
        }
        v
    }
}

/// A one-code parameter group.
fn code_group(code: u8) -> (g: Vec<u8>)
    ensures
        g@ == dec_digits(code as nat),
{
    let mut g: Vec<u8> = Vec::new();
    push_decimal(&mut g, code);
    proof {
        assert(g@ =~= dec_digits(code as nat));
    }
    g
}

/// Appends one parameter group to the group list.
fn push_group(gs: &mut Vec<Vec<u8>>, g: Vec<u8>)
    ensures
        final(gs)@.map_values(|g: Vec<u8>| g@) == old(gs)@.map_values(|g: Vec<u8>| g@).push(g@),
{
    let ghost pre = gs@;
    let ghost gv = g@;
    gs.push(g);
    proof {
        assert(gs@.map_values(|g: Vec<u8>| g@) =~= pre.map_values(|g: Vec<u8>| g@).push(gv));
    }
}

/// Pushing an element is appending the singleton list of it.
proof fn lemma_push_concat(a: Seq<Seq<u8>>, x: Seq<u8>)
    ensures
        a.push(x) == a + seq![x],
{
    assert(a.push(x) =~= a + seq![x]);
}

/// An empty group list on the right is dropped.
proof fn lemma_concat_empty_group(a: Seq<Seq<u8>>)
    ensures
        a + Seq::<Seq<u8>>::empty() == a,
{
    assert(a + Seq::<Seq<u8>>::empty() =~= a);
}

/// Every group of the list is a nonempty run of parameter bytes.
pub open spec fn groups_ok(gs: Seq<Seq<u8>>) -> bool {
    forall|i: int| 0 <= i < gs.len() ==> all_param_bytes(#[trigger] gs[i]) && gs[i].len() >= 1
}

/// A well-formed group list stays well formed under concatenation.
proof fn lemma_groups_ok_concat(a: Seq<Seq<u8>>, b: Seq<Seq<u8>>)
    requires
        groups_ok(a),
        groups_ok(b),
    ensures
        groups_ok(a + b),
{
    assert forall|i: int| 0 <= i < (a + b).len() implies all_param_bytes(#[trigger] (a + b)[i])
        && (a + b)[i].len() >= 1 by {
        if i < a.len() {
            assert((a + b)[i] == a[i]);
        } else {
            assert((a + b)[i] == b[i - a.len()]);
        }
    }
}

/// The list contributed by one attribute flag is well formed.
proof fn lemma_opt_group_ok(active: bool, code: nat)
    ensures
        groups_ok(opt_group(active, dec_digits(code))),
{
    lemma_dec_digits_param(code);
}

/// The list contributed by one color slot is well formed.
proof fn lemma_color_group_ok(slot: Option<Color>, base: nat)
    ensures
        groups_ok(color_group(slot, base)),
{
    if slot is Some {
        lemma_color_params_param_bytes(slot->0, base);
    }
}

/// A record that decorates anything has at least one parameter group, a plain
/// record has none, and the joined parameter list consists of parameter bytes
/// only.
pub proof fn lemma_groups_wellformed(d: Decoration)
    ensures
        !d.spec_is_plain() ==> d.groups().len() >= 1,
        d.spec_is_plain() ==> d.groups().len() == 0,
        groups_ok(d.groups()),
        all_param_bytes(join_params(d.groups())),
{
    let q0 = opt_group(d.bold, dec_digits(1));
    let q1 = q0 + opt_group(d.dim, dec_digits(2));
    let q2 = q1 + opt_group(d.italic, dec_digits(3));
    let q3 = q2 + opt_group(d.underline, dec_digits(4));
    let q4 = q3 + opt_group(d.blink, dec_digits(5));
    let q5 = q4 + opt_group(d.reverse, dec_digits(7));
    let q6 = q5 + opt_group(d.hidden, dec_digits(8));
    let q7 = q6 + opt_group(d.strikethrough, dec_digits(9));
    let q8 = q7 + color_group(d.fg, 30);
    let q9 = q8 + color_group(d.bg, 40);
    lemma_opt_group_ok(d.bold, 1);
    lemma_opt_group_ok(d.dim, 2);
    lemma_groups_ok_concat(q0, opt_group(d.dim, dec_digits(2)));
    lemma_opt_group_ok(d.italic, 3);
    lemma_groups_ok_concat(q1, opt_group(d.italic, dec_digits(3)));
    lemma_opt_group_ok(d.underline, 4);
    lemma_groups_ok_concat(q2, opt_group(d.underline, dec_digits(4)));
    lemma_opt_group_ok(d.blink, 5);
    lemma_groups_ok_concat(q3, opt_group(d.blink, dec_digits(5)));
    lemma_opt_group_ok(d.reverse, 7);
    lemma_groups_ok_concat(q4, opt_group(d.reverse, dec_digits(7)));
    lemma_opt_group_ok(d.hidden, 8);
    lemma_groups_ok_concat(q5, opt_group(d.hidden, dec_digits(8)));
    lemma_opt_group_ok(d.strikethrough, 9);
    lemma_groups_ok_concat(q6, opt_group(d.strikethrough, dec_digits(9)));
    lemma_color_group_ok(d.fg, 30);
    lemma_groups_ok_concat(q7, color_group(d.fg, 30));
    lemma_color_group_ok(d.bg, 40);
    lemma_groups_ok_concat(q8, color_group(d.bg, 40));
    assert(q9 == d.groups());
    lemma_join_all_param(d.groups());
}

} // verus!
