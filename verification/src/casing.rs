//! The two identifier conventions of generated code.

use convert_case::Casing;
use vstd::prelude::*;

verus! {

/// The two identifier conventions of generated code.
#[derive(Clone, Copy, Debug, PartialEq, Eq, Structural)]
pub enum Style {
    /// Used for the names of service handle types (`VesselControl`).
    Type,
    /// Used for namespaces, methods and parameters (`vessel_control`).
    Member,
}

/// The text that `convert_case` produces when it converts `text` to the
/// case that stands for `style`.
pub uninterp spec fn cased(text: Seq<char>, style: Style) -> Seq<char>;

/// Calls `convert_case::Casing::to_case` with `Case::Pascal` for
/// [`Style::Type`] and `Case::Snake` for [`Style::Member`]. The conversion
/// reads nothing but its two arguments, so its result is named by [`cased`].
#[verifier::external_body]
pub(crate) fn to_case(text: &str, style: Style) -> (out: String)
    ensures
        out@ == cased(text@, style),
{
    let case = match style {
        Style::Type => convert_case::Case::Pascal,
        Style::Member => convert_case::Case::Snake,
    };
    text.to_case(case)
}

/// Whether `text` is in type style already: converting it changes nothing.
pub open spec fn is_type_style(text: Seq<char>) -> bool {
    cased(text, Style::Type) == text
}

/// Calls `convert_case::Casing::is_case` with the case that stands for
/// `style`: it converts the text to that case and says whether the result
/// is the text itself.
#[verifier::external_body]
pub(crate) fn is_case(text: &str, style: Style) -> (out: bool)
    ensures
        out == (cased(text@, style) == text@),
{
    let case = match style {
        Style::Type => convert_case::Case::Pascal,
        Style::Member => convert_case::Case::Snake,
    };
    text.is_case(case)
}

/// Renders a schema identifier in type style.
pub fn type_style(name: &str) -> (out: String)
    ensures
        out@ == cased(name@, Style::Type),
{
    to_case(name, Style::Type)
}

/// Renders a schema identifier in member style.
pub fn member_style(name: &str) -> (out: String)
    ensures
        out@ == cased(name@, Style::Member),
{
    to_case(name, Style::Member)
}

/// Whether a procedure of this schema name is bound: its name is in type
/// style as it stands.
pub fn is_bound(name: &str) -> (out: bool)
    ensures
        out == is_type_style(name@),
{
    is_case(name, Style::Type)
}

/// A name that is in type style is its own type-style rendering, so that
/// rendering it any number of times changes nothing.
pub proof fn lemma_type_style_is_stable(name: Seq<char>)
    requires
        is_type_style(name),
    ensures
        cased(name, Style::Type) == name,
        cased(cased(name, Style::Type), Style::Type) == cased(name, Style::Type),
        is_type_style(cased(name, Style::Type)),
{
}

} // verus!
