use vstd::prelude::*;

verus! {

/// The slug that the crate `slug` makes of a title.
pub uninterp spec fn slugified(title: Seq<char>) -> Seq<char>;

/// Whether `c` may stand in a slug: a lower-case ASCII letter, a digit or a hyphen.
pub open spec fn slug_char(c: char) -> bool {
    ('a' <= c && c <= 'z') || ('0' <= c && c <= '9') || c == '-'
}

/// Whether `s` has the form of a slug: made of lower-case ASCII letters, digits and hyphens,
/// with no hyphen at either end and no two hyphens side by side. Such a string can stand in
/// a URL path or a file name as it is.
pub open spec fn is_slug(s: Seq<char>) -> bool {
    &&& forall|i: int| 0 <= i < s.len() ==> slug_char(#[trigger] s[i])
    &&& s.len() > 0 ==> s[0] != '-' && s.last() != '-'
    &&& forall|i: int| 0 <= i < s.len() - 1 ==> !(#[trigger] s[i] == '-' && s[i + 1] == '-')
}

/// `slug::slugify`. Its documentation promises the form that `is_slug` states.
#[verifier::external_body]
fn slugify(title: &str) -> (slug: String)
    ensures
        slug@ == slugified(title@),
        is_slug(slug@),
{
    slug::slugify(title)
}

/// The URL-safe identifier of a post, made of its title. The same title always gives the
/// same slug.
pub fn generate_slug(title: &str) -> (slug: String)
    ensures
        slug@ == slugified(title@),
        is_slug(slug@),
{
    slugify(title)
}

} // verus!
