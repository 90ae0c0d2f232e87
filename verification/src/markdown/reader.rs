use crate::text::optional_text_view;
use crate::markdown::{
    index_of_text, summaries_of, summaries_view, PostIndex, PostSummary, PostView, StoreError,
};
use vstd::prelude::*;

verus! {

/// The HTML that the crate `markdown` makes of markdown text, by the rules of CommonMark.
pub uninterp spec fn markdown_html(markdown: Seq<char>) -> Seq<char>;

/// `markdown::to_html`.
#[verifier::external_body]
fn to_html(markdown: &str) -> (html: String)
    ensures
        html@ == markdown_html(markdown@),
{
    markdown::to_html(markdown)
}

/// The page shown in place of a post that could not be read.
pub open spec fn not_found_page() -> Seq<char> {
    "<h1>Post not found</h1><p>The requested post could not be found.</p>"@
}

/// The name of the file that holds the markdown of the post with this slug, within the
/// directory of the posts.
pub fn markdown_file_name(slug: &str) -> (name: String)
    ensures
        name@ == slug@ + ".md"@,
{
    let mut name = slug.to_owned();
    name.append(".md");
    name
}

/// Turns markdown text into HTML.
pub fn markdown_to_html(markdown: &str) -> (html: String)
    ensures
        html@ == markdown_html(markdown@),
{
    to_html(markdown)
}

/// The HTML of a post whose markdown file holds `contents`; a post without a file is not
/// found.
pub open spec fn rendered(contents: Option<Seq<char>>) -> Result<Seq<char>, StoreError> {
    match contents {
        Some(markdown) => Ok(markdown_html(markdown)),
        None => Err(StoreError::FileNotFound),
    }
}

/// The HTML of a post, from what reading its markdown file gave: the text of the file, or
/// `None` where there is no such file.
pub fn read_and_render_markdown(contents: Option<&str>) -> (html: Result<String, StoreError>)
    ensures
        match html {
            Ok(page) => rendered(optional_text_view(contents)) == Ok::<Seq<char>, StoreError>(
                page@,
            ),
            Err(e) => rendered(optional_text_view(contents)) == Err::<Seq<char>, StoreError>(e),
        },
{
    match contents {
        Some(markdown) => Ok(markdown_to_html(markdown)),
        None => Err(StoreError::FileNotFound),
    }
}

/// The page that answers a request for a post: its HTML, or, whatever went wrong, the same
/// page that says the post was not found.
pub fn post_page(rendered: Result<String, StoreError>) -> (page: String)
    ensures
        page@ == match rendered {
            Ok(html) => html@,
            Err(_) => not_found_page(),
        },
{
    match rendered {
        Ok(html) => html,
        Err(_) => "<h1>Post not found</h1><p>The requested post could not be found.</p>".to_owned(),
    }
}

/// What a listing shows, from what reading the index file gave: the text of the file, or
/// `None` where it could not be read. A missing index is a failure, not an empty listing.
pub fn list_posts(index: Option<&str>) -> (listing: Result<Vec<PostSummary>, StoreError>)
    ensures
        match index {
            None => listing == Err::<Vec<PostSummary>, StoreError>(StoreError::FileIOFailure),
            Some(text) => match index_of_text(text@) {
                Some(posts) => listing matches Ok(summaries) && summaries_view(summaries@)
                    == summaries_of(posts),
                None => listing == Err::<Vec<PostSummary>, StoreError>(
                    StoreError::IndexParseFailure,
                ),
            },
        },
{
    let text = match index {
        Some(text) => text,
        None => {
            return Err(StoreError::FileIOFailure);
        },
    };
    match PostIndex::parse(text) {
        Ok(index) => Ok(index.list()),
        Err(e) => Err(e),
    }
}

/// A post that was created can be read: rendering the markdown that the store writes for a
/// post gives the HTML of the post's content.
pub proof fn law_created_post_renders(post: PostView)
    ensures
        rendered(Some(post.content)) == Ok::<Seq<char>, StoreError>(markdown_html(post.content)),
{
}

} // verus!
