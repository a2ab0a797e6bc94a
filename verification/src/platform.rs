//! What the library takes from the standard library without proof: text
//! operations by the rules of Unicode, and the platform's reading of paths.

use vstd::prelude::*;

verus! {

/// The lowercase form of `text` by the rules of Unicode, as
/// `str::to_lowercase` gives it.
pub uninterp spec fn lowercase_of(text: Seq<char>) -> Seq<char>;

/// `text` without the white space at its start and end, as `str::trim`
/// gives it; white space is what Unicode calls so.
pub uninterp spec fn trimmed_of(text: Seq<char>) -> Seq<char>;

/// The first run of characters of `text` that are not white space, as
/// `str::split_whitespace` gives it first; none where `text` holds nothing
/// but white space.
pub uninterp spec fn first_word_of(text: Seq<char>) -> Option<Seq<char>>;

/// `str::to_lowercase`: the lowercase form of `text` as a new string. The
/// contract gives the result its name and claims nothing else of it.
#[verifier::external_body]
pub(crate) fn to_lowercase(text: &str) -> (lowered: String)
    ensures
        lowered@ == lowercase_of(text@),
{
    text.to_lowercase()
}

/// `str::trim`: `text` without leading and trailing white space. The
/// contract gives the result its name and claims nothing else of it.
#[verifier::external_body]
pub(crate) fn trim(text: &str) -> (trimmed: &str)
    ensures
        trimmed@ == trimmed_of(text@),
{
    text.trim()
}

/// `str::split_whitespace`, of which the first item is taken. The contract
/// gives the result its name and claims nothing else of it.
#[verifier::external_body]
pub(crate) fn first_word(text: &str) -> (word: Option<String>)
    ensures
        word.deep_view() == first_word_of(text@),
{
    text.split_whitespace().next().map(|word| word.to_string())
}

/// `std::path::Path::file_name` of `path`, as text: the last component of
/// the path, if it has one. How a path falls into components is the
/// platform's matter, so nothing is claimed of the result.
#[verifier::external_body]
pub(crate) fn final_component(path: &str) -> (name: Option<String>) {
    std::path::Path::new(path).file_name().map(|name| name.to_string_lossy().to_string())
}

/// `std::path::Path::parent` of `path`, as text: the path without its last
/// component, if it has one. Nothing is claimed of the result.
#[verifier::external_body]
pub(crate) fn parent_folder(path: &str) -> (parent: Option<String>) {
    std::path::Path::new(path).parent().and_then(|parent| parent.to_str()).map(
        |parent| parent.to_string(),
    )
}

} // verus!
