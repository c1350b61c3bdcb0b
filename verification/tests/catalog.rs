use unicode_fancy_glyph::Style;
use unicode_fancy_glyph::resolve;
use unicode_fancy_glyph::rule_for;

#[test]
fn resolve_known_tokens() {
    assert_eq!(resolve("b"), Some(Style::Bold));
    assert_eq!(resolve("i"), Some(Style::Italic));
    assert_eq!(resolve("bi"), Some(Style::BoldItalic));
    assert_eq!(resolve("sc"), Some(Style::Script));
    assert_eq!(resolve("bs"), Some(Style::BoldScript));
    assert_eq!(resolve("f"), Some(Style::Fraktur));
    assert_eq!(resolve("d"), Some(Style::DoubleStruck));
    assert_eq!(resolve("bf"), Some(Style::BoldFraktur));
    assert_eq!(resolve("ss"), Some(Style::SansSerif));
    assert_eq!(resolve("ssb"), Some(Style::SansSerifBold));
    assert_eq!(resolve("ssi"), Some(Style::SansSerifItalic));
    assert_eq!(resolve("ssbi"), Some(Style::SansSerifBoldItalic));
    assert_eq!(resolve("m"), Some(Style::Monospace));
}

#[test]
fn resolve_empty_token_not_found() {
    assert_eq!(resolve(""), None);
}

#[test]
fn resolve_near_miss_not_found() {
    assert_eq!(resolve("xx"), None);
}

#[test]
fn resolve_wrong_case_not_found() {
    assert_eq!(resolve("B"), None);
}

#[test]
fn resolve_other_unknown_tokens_not_found() {
    assert_eq!(resolve(" b"), None);
    assert_eq!(resolve("b "), None);
    assert_eq!(resolve("bb"), None);
    assert_eq!(resolve("ssbb"), None);
    assert_eq!(resolve("ssbix"), None);
    assert_eq!(resolve("bold"), None);
    assert_eq!(resolve("-"), None);
}

#[test]
fn rule_bases_match_the_catalog() {
    assert_eq!(rule_for(Style::Bold).base, 0x1D400);
    assert_eq!(rule_for(Style::Italic).base, 0x1D434);
    assert_eq!(rule_for(Style::BoldItalic).base, 0x1D468);
    assert_eq!(rule_for(Style::Script).base, 0x1D49C);
    assert_eq!(rule_for(Style::BoldScript).base, 0x1D4D0);
    assert_eq!(rule_for(Style::Fraktur).base, 0x1D504);
    assert_eq!(rule_for(Style::DoubleStruck).base, 0x1D538);
    assert_eq!(rule_for(Style::BoldFraktur).base, 0x1D56C);
    assert_eq!(rule_for(Style::SansSerif).base, 0x1D5A0);
    assert_eq!(rule_for(Style::SansSerifBold).base, 0x1D5D4);
    assert_eq!(rule_for(Style::SansSerifItalic).base, 0x1D608);
    assert_eq!(rule_for(Style::SansSerifBoldItalic).base, 0x1D63C);
    assert_eq!(rule_for(Style::Monospace).base, 0x1D670);
}

#[test]
fn rule_exception_tables_match_the_catalog() {
    assert_eq!(rule_for(Style::Italic).exceptions, vec![('h', '\u{210E}')]);
    assert_eq!(
        rule_for(Style::Script).exceptions,
        vec![
            ('B', '\u{212C}'),
            ('E', '\u{2130}'),
            ('F', '\u{2131}'),
            ('H', '\u{210B}'),
            ('I', '\u{2110}'),
            ('L', '\u{2112}'),
            ('M', '\u{2133}'),
            ('R', '\u{211B}'),
            ('e', '\u{212F}'),
            ('g', '\u{210A}'),
            ('o', '\u{2134}'),
        ]
    );
    assert_eq!(
        rule_for(Style::Fraktur).exceptions,
        vec![
            ('C', '\u{212D}'),
            ('H', '\u{210C}'),
            ('I', '\u{2111}'),
            ('R', '\u{211C}'),
            ('Z', '\u{2128}'),
        ]
    );
    assert_eq!(
        rule_for(Style::DoubleStruck).exceptions,
        vec![
            ('C', '\u{2102}'),
            ('H', '\u{210D}'),
            ('N', '\u{2115}'),
            ('P', '\u{2119}'),
            ('Q', '\u{211A}'),
            ('R', '\u{211D}'),
            ('Z', '\u{2124}'),
        ]
    );
}

#[test]
fn rule_exception_tables_empty_for_contiguous_styles() {
    let contiguous = [
        Style::Bold,
        Style::BoldItalic,
        Style::BoldScript,
        Style::BoldFraktur,
        Style::SansSerif,
        Style::SansSerifBold,
        Style::SansSerifItalic,
        Style::SansSerifBoldItalic,
        Style::Monospace,
    ];
    for style in contiguous {
        assert!(rule_for(style).exceptions.is_empty());
    }
}
