//! The conversion engine: applies one [`Rule`] to an input string, mapping
//! each ASCII Latin letter independently onto its styled glyph and copying
//! every other character through unchanged.

use vstd::prelude::*;

use crate::catalog::Rule;
use crate::catalog::RuleModel;
use crate::catalog::Style;
use crate::catalog::rule_for;
use crate::catalog::spec_rule;
use crate::catalog::valid_scalar;

verus! {

/// A letter's index in the 52-letter alphabet `A`-`Z` then `a`-`z`, or `None`
/// for any character that is not an ASCII Latin letter.
pub open spec fn letter_offset(c: char) -> Option<int> {
    if 'A' as int <= c as int <= 'Z' as int {
        Some(c as int - 'A' as int)
    } else if 'a' as int <= c as int <= 'z' as int {
        Some(c as int - 'a' as int + 26)
    } else {
        None
    }
}

/// The override paired with `c` in an exception table, or `None` when the
/// table has no entry for `c`. The first match decides, though the tables of
/// the catalog never repeat a key.
pub open spec fn spec_lookup(pairs: Seq<(char, char)>, c: char) -> Option<char>
    decreases pairs.len(),
{
    if pairs.len() == 0 {
        None
    } else if pairs[0].0 == c {
        Some(pairs[0].1)
    } else {
        spec_lookup(pairs.drop_first(), c)
    }
}

/// What one character becomes under a rule: a non-letter stays itself, a
/// letter with an exception entry becomes the override, and every other
/// letter becomes the code point at `base` plus the letter's offset.
pub open spec fn styled_char(rule: RuleModel, c: char) -> char {
    match letter_offset(c) {
        Some(off) => match spec_lookup(rule.exceptions, c) {
            Some(e) => e,
            None => (rule.base + off) as char,
        },
        None => c,
    }
}

/// What a whole string becomes under a rule: each character mapped
/// independently, in place, with no reordering, loss or insertion.
pub open spec fn spec_convert(rule: RuleModel, s: Seq<char>) -> Seq<char> {
    Seq::new(s.len(), |i: int| styled_char(rule, s[i]))
}

/// Relies on char::from_u32 of std: it returns the character with scalar
/// value `i`, or `None` when `i` is a surrogate code point or above U+10FFFF.
pub assume_specification[ char::from_u32 ](i: u32) -> (r: Option<char>)
    ensures
        valid_scalar(i as int) ==> r == Some(i as char),
        !valid_scalar(i as int) ==> r is None,
;

/// Relies on String::push of std: it appends the character at the end and
/// changes nothing else.
#[verifier::external_body]
fn push_char(s: &mut String, c: char)
    ensures
        final(s)@ == old(s)@.push(c),
{
    s.push(c);
}

/// The exception override for `c`, found by a front-to-back scan of the
/// table.
fn lookup_exception(pairs: &Vec<(char, char)>, c: char) -> (r: Option<char>)
    ensures
        r == spec_lookup(pairs@, c),
{
    let n = pairs.len();
    let mut i: usize = 0;
    proof {
        assert(pairs@.skip(0) =~= pairs@);
    }
    while i < n
        invariant
            i <= n == pairs@.len(),
            spec_lookup(pairs@, c) == spec_lookup(pairs@.skip(i as int), c),
        decreases n - i,
    {
        let (key, over) = pairs[i];
        proof {
            assert(pairs@.skip(i as int)[0] == pairs@[i as int]);
            assert(pairs@.skip(i as int).drop_first() =~= pairs@.skip(i as int + 1));
        }
        if key == c {
            return Some(over);
        }
        i += 1;
    }
    proof {
        assert(pairs@.skip(n as int) =~= Seq::<(char, char)>::empty());
    }
    None
}

/// Maps one character through a rule: the exception table first, then the
/// arithmetic path through a checked code-point conversion, which a
/// well-formed rule can never make fail.
pub fn convert_char(rule: &Rule, c: char) -> (r: char)
    requires
        rule@.wf(),
    ensures
        r == styled_char(rule@, c),
{
    let v = c as u32;
    let off: u32 = if 'A' as u32 <= v && v <= 'Z' as u32 {
        v - 'A' as u32
    } else if 'a' as u32 <= v && v <= 'z' as u32 {
        v - 'a' as u32 + 26
    } else {
        return c;
    };
    if let Some(over) = lookup_exception(&rule.exceptions, c) {
        return over;
    }
    proof {
        assert(valid_scalar(rule@.base + off as int));
    }
    match char::from_u32(rule.base + off) {
        Some(styled) => styled,
        // Unreachable: a well-formed rule only addresses valid scalar values.
        None => c,
    }
}

/// Applies a rule to a string, styling each ASCII Latin letter and passing
/// every other character through unchanged, in order and one for one.
pub fn convert(rule: &Rule, input: &str) -> (r: String)
    requires
        rule@.wf(),
    ensures
        r@ == spec_convert(rule@, input@),
{
    let n = input.unicode_len();
    let mut out = String::new();
    let mut i: usize = 0;
    while i < n
        invariant
            i <= n == input@.len(),
            rule@.wf(),
            out@ =~= spec_convert(rule@, input@.take(i as int)),
        decreases n - i,
    {
        let c = input.get_char(i);
        let styled = convert_char(rule, c);
        push_char(&mut out, styled);
        i += 1;
        proof {
            assert(input@.take(i as int).drop_last() =~= input@.take(i as int - 1));
            assert(out@ =~= spec_convert(rule@, input@.take(i as int)));
        }
    }
    proof {
        assert(input@.take(n as int) =~= input@);
    }
    out
}

/// Styles a string in one step: looks the style's rule up in the catalog and
/// runs the conversion engine over the input with it.
pub fn convert_styled(style: Style, input: &str) -> (r: String)
    ensures
        r@ == spec_convert(spec_rule(style), input@),
{
    let rule = rule_for(style);
    convert(&rule, input)
}

} // verus!
