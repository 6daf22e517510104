//! Slugs: the normalised, file-name-safe form of free text.

use vstd::prelude::*;

verus! {

/// The slug that `slug::slugify` gives for a text.
pub uninterp spec fn slug_of(text: Seq<char>) -> Seq<char>;

/// The characters a slug is made of: `a`-`z`, `0`-`9` and the hyphen.
pub open spec fn is_slug_char(c: char) -> bool {
    ||| 'a' <= c <= 'z'
    ||| '0' <= c <= '9'
    ||| c == '-'
}

/// A text made of slug characters only, with no hyphen at either end and no
/// two hyphens in a row.
pub open spec fn is_slug(s: Seq<char>) -> bool {
    &&& forall|i: int| 0 <= i < s.len() ==> is_slug_char(#[trigger] s[i])
    &&& s.len() > 0 ==> s[0] != '-' && s[s.len() - 1] != '-'
    &&& forall|i: int, j: int|
        0 <= i && j == i + 1 && j < s.len() ==> !(#[trigger] s[i] == '-' && #[trigger] s[j] == '-')
}

/// Calls `slug::slugify`. Trusted: the result is the slug of the text, and it
/// has the shape the crate documents (only `a`-`z`, `0`-`9` and `-`, never
/// two hyphens in a row, no hyphen first or last).
#[verifier::external_body]
pub(crate) fn slugify(text: &str) -> (slug: String)
    ensures
        slug@ == slug_of(text@),
        is_slug(slug@),
{
    slug::slugify(text)
}

} // verus!
