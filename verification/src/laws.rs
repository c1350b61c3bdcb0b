//! Laws of the conversion engine, stated over the models that the engine's
//! contracts use and proved once and for all.

use vstd::prelude::*;

use crate::catalog::RuleModel;
use crate::catalog::Style;
use crate::catalog::spec_base;
use crate::catalog::spec_exceptions;
use crate::catalog::valid_scalar;
use crate::engine::letter_offset;
use crate::engine::spec_convert;
use crate::engine::spec_lookup;
use crate::engine::styled_char;

verus! {

/// A string that holds no ASCII Latin letter passes through conversion
/// unchanged, whatever the rule.
pub proof fn lemma_pass_through(rule: RuleModel, s: Seq<char>)
    requires
        forall|i: int| 0 <= i < s.len() ==> #[trigger] letter_offset(s[i]) is None,
    ensures
        spec_convert(rule, s) == s,
{
    assert(spec_convert(rule, s) =~= s);
}

/// Converting the same input under the same rule twice yields the same
/// output: each call's result equals the one mathematical conversion.
pub proof fn lemma_deterministic(rule: RuleModel, s: Seq<char>, r1: Seq<char>, r2: Seq<char>)
    requires
        r1 == spec_convert(rule, s),
        r2 == spec_convert(rule, s),
    ensures
        r1 == r2,
{
}

/// Conversion keeps the number of Unicode scalar values: output and input
/// have the same length, for every rule and every input.
pub proof fn lemma_length_preserved(rule: RuleModel, s: Seq<char>)
    ensures
        spec_convert(rule, s).len() == s.len(),
{
}

/// An exception entry always wins: where a letter of the input stands in the
/// rule's exception table, the output holds the override at that position,
/// not the arithmetic code point.
pub proof fn lemma_exception_precedence(rule: RuleModel, s: Seq<char>, i: int, over: char)
    requires
        0 <= i < s.len(),
        letter_offset(s[i]) is Some,
        spec_lookup(rule.exceptions, s[i]) == Some(over),
    ensures
        spec_convert(rule, s)[i] == over,
{
}

/// Every exception entry of the catalog earns its place: its key is an ASCII
/// Latin letter, and its override differs from the code point the arithmetic
/// path would have produced, so an exception never coincides with the
/// fallback.
pub proof fn lemma_catalog_overrides_differ(style: Style, i: int)
    requires
        0 <= i < spec_exceptions(style).len(),
    ensures
        letter_offset(spec_exceptions(style)[i].0) is Some,
        match letter_offset(spec_exceptions(style)[i].0) {
            Some(off) => spec_exceptions(style)[i].1 as int != spec_base(style) + off,
            None => false,
        },
{
}

/// Under a rule without exceptions, upper and lower case of one letter come
/// out as two different characters: their offsets differ, so the two code
/// points differ.
pub proof fn lemma_case_distinction(rule: RuleModel)
    requires
        rule.wf(),
        rule.exceptions.len() == 0,
    ensures
        spec_convert(rule, seq!['A', 'a'])[0] != spec_convert(rule, seq!['A', 'a'])[1],
{
    assert(valid_scalar(rule.base + 0));
    assert(valid_scalar(rule.base + 26));
    assert(styled_char(rule, 'A') as int == rule.base);
    assert(styled_char(rule, 'a') as int == rule.base + 26);
}

} // verus!
