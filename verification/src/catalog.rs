//! The style catalog: the fixed set of styles, the token that selects each
//! style, and the rule (base code point plus exception table) that drives the
//! conversion engine for that style.

use vstd::prelude::*;

verus! {

/// One visual variant of the Latin alphabet, drawn from the Unicode
/// Mathematical Alphanumeric Symbols block.
#[derive(Clone, Copy, Debug, PartialEq, Eq, Structural)]
pub enum Style {
    Bold,
    Italic,
    BoldItalic,
    Script,
    BoldScript,
    Fraktur,
    DoubleStruck,
    BoldFraktur,
    SansSerif,
    SansSerifBold,
    SansSerifItalic,
    SansSerifBoldItalic,
    Monospace,
}

/// True when `v` is a Unicode scalar value: a code point that a `char` can
/// hold (at most U+10FFFF and not a surrogate).
pub open spec fn valid_scalar(v: int) -> bool {
    0 <= v <= 0x10FFFF && !(0xD800 <= v <= 0xDFFF)
}

/// The resolved behaviour of one style: the code point that `A` maps to, and
/// the letters whose styled glyph Unicode placed elsewhere than `base`
/// plus the letter's offset.
#[derive(Debug)]
pub struct Rule {
    /// Code point of the styled uppercase `A`; the other letters follow at
    /// `base + 1` through `base + 51` unless an exception overrides them.
    pub base: u32,
    /// Source letter paired with the code point that replaces the arithmetic
    /// result for that letter. Keys are distinct; order carries no meaning.
    pub exceptions: Vec<(char, char)>,
}

/// The mathematical content of a [`Rule`]: the same data with the exception
/// table as a sequence of pairs.
pub ghost struct RuleModel {
    pub base: u32,
    pub exceptions: Seq<(char, char)>,
}

impl View for Rule {
    type V = RuleModel;

    open spec fn view(&self) -> RuleModel {
        RuleModel { base: self.base, exceptions: self.exceptions@ }
    }
}

impl RuleModel {
    /// Every code point the arithmetic path can produce is a valid scalar
    /// value, and so is every override. Overrides are `char`s already, so
    /// only the 52 arithmetic results need stating.
    pub open spec fn wf(self) -> bool {
        forall|off: int| 0 <= off < 52 ==> #[trigger] valid_scalar(self.base + off)
    }
}

/// The style selected by each short token, or `None` for anything else:
/// matching is exact and case-sensitive, with no aliases.
pub open spec fn spec_resolve(t: Seq<char>) -> Option<Style> {
    if t == seq!['b'] {
        Some(Style::Bold)
    } else if t == seq!['i'] {
        Some(Style::Italic)
    } else if t == seq!['b', 'i'] {
        Some(Style::BoldItalic)
    } else if t == seq!['s', 'c'] {
        Some(Style::Script)
    } else if t == seq!['b', 's'] {
        Some(Style::BoldScript)
    } else if t == seq!['f'] {
        Some(Style::Fraktur)
    } else if t == seq!['d'] {
        Some(Style::DoubleStruck)
    } else if t == seq!['b', 'f'] {
        Some(Style::BoldFraktur)
    } else if t == seq!['s', 's'] {
        Some(Style::SansSerif)
    } else if t == seq!['s', 's', 'b'] {
        Some(Style::SansSerifBold)
    } else if t == seq!['s', 's', 'i'] {
        Some(Style::SansSerifItalic)
    } else if t == seq!['s', 's', 'b', 'i'] {
        Some(Style::SansSerifBoldItalic)
    } else if t == seq!['m'] {
        Some(Style::Monospace)
    } else {
        None
    }
}

/// The base code point of each style: where that style's uppercase `A`
/// lives in the Mathematical Alphanumeric Symbols block.
pub open spec fn spec_base(style: Style) -> u32 {
    match style {
        Style::Bold => 0x1D400u32,
        Style::Italic => 0x1D434u32,
        Style::BoldItalic => 0x1D468u32,
        Style::Script => 0x1D49Cu32,
        Style::BoldScript => 0x1D4D0u32,
        Style::Fraktur => 0x1D504u32,
        Style::DoubleStruck => 0x1D538u32,
        Style::BoldFraktur => 0x1D56Cu32,
        Style::SansSerif => 0x1D5A0u32,
        Style::SansSerifBold => 0x1D5D4u32,
        Style::SansSerifItalic => 0x1D608u32,
        Style::SansSerifBoldItalic => 0x1D63Cu32,
        Style::Monospace => 0x1D670u32,
    }
}

/// The exception table of each style: the letters whose styled glyph sits in
/// the legacy Letterlike Symbols block instead of at `base + offset`.
pub open spec fn spec_exceptions(style: Style) -> Seq<(char, char)> {
    match style {
        Style::Italic => seq![('h', '\u{210E}')],
        Style::Script => seq![
            ('B', '\u{212C}'),
            ('E', '\u{2130}'),
            ('F', '\u{2131}'),
            ('H', '\u{210B}'),
            ('I', '\u{2110}'),
            ('L', '\u{2112}'),
            ('M', '\u{2133}'),
            ('R', '\u{211B}'),
            ('e', '\u{212F}'),
            ('g', '\u{210A}'),
            ('o', '\u{2134}'),
        ],
        Style::Fraktur => seq![
            ('C', '\u{212D}'),
            ('H', '\u{210C}'),
            ('I', '\u{2111}'),
            ('R', '\u{211C}'),
            ('Z', '\u{2128}'),
        ],
        Style::DoubleStruck => seq![
            ('C', '\u{2102}'),
            ('H', '\u{210D}'),
            ('N', '\u{2115}'),
            ('P', '\u{2119}'),
            ('Q', '\u{211A}'),
            ('R', '\u{211D}'),
            ('Z', '\u{2124}'),
        ],
        _ => Seq::empty(),
    }
}

/// The full model of one style's rule.
pub open spec fn spec_rule(style: Style) -> RuleModel {
    RuleModel { base: spec_base(style), exceptions: spec_exceptions(style) }
}

/// Returns the rule for a style: a total lookup into the fixed catalog, with
/// the data tabulated in [`spec_base`] and [`spec_exceptions`].
pub fn rule_for(style: Style) -> (r: Rule)
    ensures
        r@ == spec_rule(style),
        r@.wf(),
{
    let r = match style {
        Style::Bold => Rule { base: 0x1D400, exceptions: Vec::new() },
        Style::Italic => Rule { base: 0x1D434, exceptions: vec![('h', '\u{210E}')] },
        Style::BoldItalic => Rule { base: 0x1D468, exceptions: Vec::new() },
        Style::Script => Rule {
            base: 0x1D49C,
            exceptions: vec![
                ('B', '\u{212C}'),
                ('E', '\u{2130}'),
                ('F', '\u{2131}'),
                ('H', '\u{210B}'),
                ('I', '\u{2110}'),
                ('L', '\u{2112}'),
                ('M', '\u{2133}'),
                ('R', '\u{211B}'),
                ('e', '\u{212F}'),
                ('g', '\u{210A}'),
                ('o', '\u{2134}'),
            ],
        },
        Style::BoldScript => Rule { base: 0x1D4D0, exceptions: Vec::new() },
        Style::Fraktur => Rule {
            base: 0x1D504,
            exceptions: vec![
                ('C', '\u{212D}'),
                ('H', '\u{210C}'),
                ('I', '\u{2111}'),
                ('R', '\u{211C}'),
                ('Z', '\u{2128}'),
            ],
        },
        Style::DoubleStruck => Rule {
            base: 0x1D538,
            exceptions: vec![
                ('C', '\u{2102}'),
                ('H', '\u{210D}'),
                ('N', '\u{2115}'),
                ('P', '\u{2119}'),
                ('Q', '\u{211A}'),
                ('R', '\u{211D}'),
                ('Z', '\u{2124}'),
            ],
        },
        Style::BoldFraktur => Rule { base: 0x1D56C, exceptions: Vec::new() },
        Style::SansSerif => Rule { base: 0x1D5A0, exceptions: Vec::new() },
        Style::SansSerifBold => Rule { base: 0x1D5D4, exceptions: Vec::new() },
        Style::SansSerifItalic => Rule { base: 0x1D608, exceptions: Vec::new() },
        Style::SansSerifBoldItalic => Rule { base: 0x1D63C, exceptions: Vec::new() },
        Style::Monospace => Rule { base: 0x1D670, exceptions: Vec::new() },
    };
    proof {
        assert(r@.exceptions =~= spec_exceptions(style));
    }
    r
}

/// Turns a textual style token into its [`Style`], or `None` when the token
/// is not one of the thirteen known codes.
pub fn resolve(token: &str) -> (r: Option<Style>)
    ensures
        r == spec_resolve(token@),
{
    let n = token.unicode_len();
    if n == 0 || n > 4 {
        return None;
    }
    let c0 = token.get_char(0);
    if n == 1 {
        proof {
            assert(token@ =~= seq![token@[0]]);
        }
        match c0 {
            'b' => Some(Style::Bold),
            'i' => Some(Style::Italic),
            'f' => Some(Style::Fraktur),
            'd' => Some(Style::DoubleStruck),
            'm' => Some(Style::Monospace),
            _ => None,
        }
    } else if n == 2 {
        let c1 = token.get_char(1);
        proof {
            assert(token@ =~= seq![token@[0], token@[1]]);
        }
        match (c0, c1) {
            ('b', 'i') => Some(Style::BoldItalic),
            ('s', 'c') => Some(Style::Script),
            ('b', 's') => Some(Style::BoldScript),
            ('b', 'f') => Some(Style::BoldFraktur),
            ('s', 's') => Some(Style::SansSerif),
            _ => None,
        }
    } else if n == 3 {
        let c1 = token.get_char(1);
        let c2 = token.get_char(2);
        proof {
            assert(token@ =~= seq![token@[0], token@[1], token@[2]]);
        }
        match (c0, c1, c2) {
            ('s', 's', 'b') => Some(Style::SansSerifBold),
            ('s', 's', 'i') => Some(Style::SansSerifItalic),
            _ => None,
        }
    } else {
        let c1 = token.get_char(1);
        let c2 = token.get_char(2);
        let c3 = token.get_char(3);
        proof {
            assert(token@ =~= seq![token@[0], token@[1], token@[2], token@[3]]);
        }
        if c0 == 's' && c1 == 's' && c2 == 'b' && c3 == 'i' {
            Some(Style::SansSerifBoldItalic)
        } else {
            None
        }
    }
}

} // verus!
