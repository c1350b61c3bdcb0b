//! Styled Unicode look-alikes for ASCII Latin letters.
//!
//! The crate maps the letters `A`-`Z` and `a`-`z` of an input string onto the
//! visually styled glyphs of the Unicode Mathematical Alphanumeric Symbols
//! block (with the handful of legacy Letterlike Symbols code points that
//! Unicode reused instead), leaving every other character untouched. Thirteen
//! styles are offered, each selected by a short token and described by a
//! [`catalog::Rule`]: a base code point plus a table of per-letter exceptions.

pub mod catalog;
pub mod engine;
pub mod laws;

pub use catalog::Rule;
pub use catalog::Style;
pub use catalog::resolve;
pub use catalog::rule_for;
pub use engine::convert;
pub use engine::convert_styled;
