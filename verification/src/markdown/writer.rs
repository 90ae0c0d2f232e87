use crate::markdown::{
    copy_post, default_author, has_slug, index_of_text, index_text, law_created_post_is_listed,
    law_update_keeps_count, summaries_of, summary_of, with_post_edited, with_post_replaced,
    without_slug, Post, PostIndex, PostView, StoreError, Timestamp,
};
use crate::text::optional_text_view;
use crate::utils::{generate_slug, is_slug, slugified};
use vstd::prelude::*;

verus! {

/// What the store writes for one request: the markdown file of the post, and the index.
#[derive(Debug, PartialEq, Eq)]
pub struct StoreWrites {
    /// The text to write to the markdown file of the post. It is written first, and whatever
    /// becomes of the index.
    pub markdown: String,
    /// The text to write to the index file, or why the index is left as it is.
    pub index: Result<String, StoreError>,
}

/// The posts that the index holds before a write: those of its text, none where there is no
/// index file yet.
pub open spec fn posts_before(existing: Option<Seq<char>>) -> Option<Seq<PostView>> {
    match existing {
        Some(text) => index_of_text(text),
        None => Some(Seq::empty()),
    }
}

/// The text of the index after a write. A new post is added at the end; any other takes the
/// place of the first post with its slug, and is dropped where there is none.
pub open spec fn updated_index(existing: Option<Seq<char>>, post: PostView, is_new: bool) -> Result<
    Seq<char>,
    StoreError,
> {
    match posts_before(existing) {
        None => Err(StoreError::IndexParseFailure),
        Some(posts) => {
            let after = if is_new {
                posts.push(post)
            } else {
                with_post_replaced(posts, post)
            };
            match index_text(after) {
                Some(text) => Ok(text),
                None => Err(StoreError::IndexSerializeFailure),
            }
        },
    }
}

/// Whether `text` is the outcome `outcome`, character by character.
pub open spec fn is_outcome(text: Result<String, StoreError>, outcome: Result<Seq<char>, StoreError>) -> bool {
    match text {
        Ok(text) => outcome == Ok::<Seq<char>, StoreError>(text@),
        Err(e) => outcome == Err::<Seq<char>, StoreError>(e),
    }
}

/// The new text of the index, from the text of the index file as it stands (`None` where
/// there is none yet) and the post to add or to put in place.
pub fn update_posts_json(existing: Option<&str>, post: &Post, is_new: bool) -> (index: Result<
    String,
    StoreError,
>)
    ensures
        is_outcome(index, updated_index(optional_text_view(existing), post@, is_new)),
{
    let mut posts = match existing {
        Some(text) => match PostIndex::parse(text) {
            Ok(posts) => posts,
            Err(e) => {
                return Err(e);
            },
        },
        None => PostIndex::new(),
    };
    if is_new {
        posts.create(copy_post(post));
    } else {
        posts.update(copy_post(post));
    }
    posts.render()
}

/// What to write for a new post: its content to its markdown file, and the index with the
/// post added at the end.
pub fn create_post(post: &Post, existing: Option<&str>) -> (writes: StoreWrites)
    ensures
        writes.markdown@ == post@.content,
        is_outcome(writes.index, updated_index(optional_text_view(existing), post@, true)),
{
    StoreWrites { markdown: post.content.clone(), index: update_posts_json(existing, post, true) }
}

/// What to write for a post that takes the place of the one with its slug: its content to
/// its markdown file, and the index with the post in that place, as it is given. Where the
/// index holds no post with this slug the markdown file is written all the same, and the
/// index keeps its posts. `edit_post` is the form that keeps the time of creation.
pub fn update_post(post: &Post, existing: Option<&str>) -> (writes: StoreWrites)
    ensures
        writes.markdown@ == post@.content,
        is_outcome(writes.index, updated_index(optional_text_view(existing), post@, false)),
{
    StoreWrites { markdown: post.content.clone(), index: update_posts_json(existing, post, false) }
}

/// The post that a request for a new post asks for: its slug is made of the title, its
/// author is `admin`, and it was created and last updated at `now`.
pub fn new_post(title: String, content: String, now: Timestamp) -> (post: Post)
    ensures
        post@ == (PostView {
            slug: slugified(title@),
            title: title@,
            author: default_author(),
            created_at: now,
            updated_at: now,
            content: content@,
        }),
        is_slug(post@.slug),
{
    let slug = generate_slug(title.as_str());
    Post { slug, title, author: "admin".to_owned(), created_at: now, updated_at: now, content }
}

/// The text of the index after an edit at `now`: the first post with the slug gives way to a
/// post with the title and content given, last updated at `now` and created when that post
/// was; where no post has the slug the index keeps its posts.
pub open spec fn edited_index(
    existing: Option<Seq<char>>,
    slug: Seq<char>,
    title: Seq<char>,
    content: Seq<char>,
    now: Timestamp,
) -> Result<Seq<char>, StoreError> {
    match posts_before(existing) {
        None => Err(StoreError::IndexParseFailure),
        Some(posts) => match index_text(with_post_edited(posts, slug, title, content, now)) {
            Some(text) => Ok(text),
            None => Err(StoreError::IndexSerializeFailure),
        },
    }
}

/// What to write for a request to edit the post with this slug: the content to its markdown
/// file, and the index with the post edited. The post keeps the time of its creation. Where
/// the index holds no post with this slug the markdown file is written all the same, and the
/// index keeps its posts.
pub fn edit_post(
    slug: String,
    title: String,
    content: String,
    now: Timestamp,
    existing: Option<&str>,
) -> (writes: StoreWrites)
    ensures
        writes.markdown@ == content@,
        is_outcome(
            writes.index,
            edited_index(optional_text_view(existing), slug@, title@, content@, now),
        ),
{
    let markdown = content.clone();
    let parsed = match existing {
        Some(text) => PostIndex::parse(text),
        None => Ok(PostIndex::new()),
    };
    let index = match parsed {
        Ok(mut posts) => {
            posts.edit(slug, title, content, now);
            posts.render()
        },
        Err(e) => Err(e),
    };
    StoreWrites { markdown, index }
}

/// The text of the index after the posts with this slug were taken out of it.
pub open spec fn index_without(existing: Option<Seq<char>>, slug: Seq<char>) -> Result<
    Seq<char>,
    StoreError,
> {
    match posts_before(existing) {
        None => Err(StoreError::IndexParseFailure),
        Some(posts) => match index_text(without_slug(posts, slug)) {
            Some(text) => Ok(text),
            None => Err(StoreError::IndexSerializeFailure),
        },
    }
}

/// The new text of the index once the post with this slug is deleted, from the text of the
/// index file as it stands (`None` where there is none yet). The markdown file of the post
/// is to be removed beside it.
pub fn delete_post(slug: &str, existing: Option<&str>) -> (index: Result<String, StoreError>)
    ensures
        is_outcome(index, index_without(optional_text_view(existing), slug@)),
{
    let mut posts = match existing {
        Some(text) => match PostIndex::parse(text) {
            Ok(posts) => posts,
            Err(e) => {
                return Err(e);
            },
        },
        None => PostIndex::new(),
    };
    posts.remove(slug);
    posts.render()
}

/// An update for a slug that the index does not hold writes the index out with the posts it
/// held, as many as before, while the markdown of the post is written all the same.
pub proof fn law_update_of_absent_slug(text: Seq<char>, posts: Seq<PostView>, post: PostView)
    requires
        index_of_text(text) == Some(posts),
        !has_slug(posts, post.slug),
    ensures
        updated_index(Some(text), post, false) == match index_text(posts) {
            Some(same) => Ok::<Seq<char>, StoreError>(same),
            None => Err::<Seq<char>, StoreError>(StoreError::IndexSerializeFailure),
        },
{
    law_update_keeps_count(posts, post);
}

/// A post that was created is listed, as far as reading gives back what was written: where
/// the text that a creation wrote reads as the posts that were written, the listing of that
/// text holds the summary of the new post.
pub proof fn law_created_post_is_listed_once_read_back(
    existing: Option<Seq<char>>,
    post: PostView,
    text: Seq<char>,
)
    requires
        updated_index(existing, post, true) == Ok::<Seq<char>, StoreError>(text),
        index_of_text(text) == Some(posts_before(existing).unwrap().push(post)),
    ensures
        summaries_of(index_of_text(text).unwrap()).contains(summary_of(post)),
{
    law_created_post_is_listed(posts_before(existing).unwrap(), post);
}

} // verus!
