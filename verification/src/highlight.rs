//! The syntax-highlighting collaborator. The highlighting engine itself is an
//! outside library; this module declares the handful of its types and calls
//! the blob viewer relies on, each with the contract its source shows, and
//! converts its styled output into the core's own style model.

use vstd::prelude::*;

use crate::style::{UiColor, UiStyle};

verus! {

#[verifier::external_type_specification]
#[verifier::external_body]
pub struct ExSyntaxSet(syntect::parsing::SyntaxSet);

#[verifier::external_type_specification]
#[verifier::external_body]
pub struct ExSyntaxReference(syntect::parsing::SyntaxReference);

#[verifier::external_type_specification]
#[verifier::external_body]
pub struct ExTheme(syntect::highlighting::Theme);

#[verifier::external_type_specification]
#[verifier::external_body]
pub struct ExHighlightLines<'a>(syntect::easy::HighlightLines<'a>);

/// The concatenated text of a sequence of styled segments.
pub open spec fn segments_text(segs: Seq<(UiStyle, String)>) -> Seq<char>
    decreases segs.len(),
{
    if segs.len() == 0 {
        seq![]
    } else {
        segs[0].1@ + segments_text(segs.drop_first())
    }
}

/// Relies on syntect's SyntaxSet::find_syntax_by_extension: a lookup of a
/// syntax definition by file extension.
#[verifier::external_body]
pub(crate) fn find_syntax_by_extension(ss: &syntect::parsing::SyntaxSet, ext: &str) -> Option<
    syntect::parsing::SyntaxReference,
> {
    ss.find_syntax_by_extension(ext).cloned()
}

/// Relies on syntect's SyntaxSet::find_syntax_by_first_line: a lookup of a
/// syntax definition by matching a file's first line against the syntaxes'
/// first-line patterns.
#[verifier::external_body]
pub(crate) fn find_syntax_by_first_line(ss: &syntect::parsing::SyntaxSet, line: &str) -> Option<
    syntect::parsing::SyntaxReference,
> {
    ss.find_syntax_by_first_line(line).cloned()
}

/// Relies on syntect's HighlightLines::new: a fresh highlighter for one syntax
/// and theme, its parse state at the start of a file.
#[verifier::external_body]
pub(crate) fn new_highlighter<'s>(
    syntax: &syntect::parsing::SyntaxReference,
    theme: &'s syntect::highlighting::Theme,
) -> syntect::easy::HighlightLines<'s> {
    syntect::easy::HighlightLines::new(syntax, theme)
}

/// Relies on syntect's ThemeSettings: `settings.background` is the theme's
/// default view background, a plain red/green/blue/alpha color.
#[verifier::external_body]
pub(crate) fn theme_background(theme: &syntect::highlighting::Theme) -> (r: Option<UiColor>)
    ensures
        r matches Some(c) ==> c is Rgb,
{
    theme.settings.background.map(|c| UiColor::Rgb(c.r, c.g, c.b))
}

/// Relies on syntect's HighlightLines::highlight_line: it cuts the line into
/// styled segments whose concatenation is the original line, as its
/// documentation states. A parse failure aborts.
#[verifier::external_body]
pub(crate) fn highlight_line(
    h: &mut syntect::easy::HighlightLines,
    line: &str,
    ss: &syntect::parsing::SyntaxSet,
) -> (r: Vec<(UiStyle, String)>)
    ensures
        segments_text(r@) == line@,
{
    let ranges = h.highlight_line(line, ss).unwrap();
    ranges
        .iter()
        .map(|(st, tx)| (
            UiStyle {
                fg: Some(UiColor::Rgb(st.foreground.r, st.foreground.g, st.foreground.b)),
                bg: Some(UiColor::Rgb(st.background.r, st.background.g, st.background.b)),
                bold: false,
                dim: false,
            },
            tx.to_string(),
        ))
        .collect()
}

} // verus!
