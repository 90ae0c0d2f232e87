use crate::json::{
    array_view, json_document, json_pretty_text, lemma_array_view, lemma_object_view,
    members_view, parse, to_pretty, Json, JsonValue,
};
use vstd::prelude::*;
use vstd::utf8::encode_utf8;

pub mod reader;
pub mod writer;

verus! {

/// A point in time: whole seconds since the first second of 1970 in UTC, and the nanoseconds
/// that follow them.
#[derive(Debug, Clone, Copy, PartialEq, Eq, Structural)]
pub struct Timestamp {
    pub secs: i64,
    pub nanos: u32,
}

/// A blog post. Its slug is its key.
#[derive(Debug, Clone, PartialEq, Eq)]
pub struct Post {
    pub slug: String,
    pub title: String,
    pub author: String,
    pub created_at: Timestamp,
    pub updated_at: Timestamp,
    pub content: String,
}

/// The mathematical value of a `Post`.
pub struct PostView {
    pub slug: Seq<char>,
    pub title: Seq<char>,
    pub author: Seq<char>,
    pub created_at: Timestamp,
    pub updated_at: Timestamp,
    pub content: Seq<char>,
}

impl View for Post {
    type V = PostView;

    open spec fn view(&self) -> PostView {
        PostView {
            slug: self.slug@,
            title: self.title@,
            author: self.author@,
            created_at: self.created_at,
            updated_at: self.updated_at,
            content: self.content@,
        }
    }
}

/// What a listing shows of a post: everything but its content.
#[derive(Debug, Clone, PartialEq, Eq)]
pub struct PostSummary {
    pub slug: String,
    pub title: String,
    pub author: String,
    pub created_at: Timestamp,
    pub updated_at: Timestamp,
}

/// The mathematical value of a `PostSummary`.
pub struct PostSummaryView {
    pub slug: Seq<char>,
    pub title: Seq<char>,
    pub author: Seq<char>,
    pub created_at: Timestamp,
    pub updated_at: Timestamp,
}

impl View for PostSummary {
    type V = PostSummaryView;

    open spec fn view(&self) -> PostSummaryView {
        PostSummaryView {
            slug: self.slug@,
            title: self.title@,
            author: self.author@,
            created_at: self.created_at,
            updated_at: self.updated_at,
        }
    }
}

/// Why the store could not do what it was asked.
#[derive(Debug, Clone, Copy, PartialEq, Eq, Structural)]
pub enum StoreError {
    /// There is no markdown file for the slug.
    FileNotFound,
    /// A file could not be read or written.
    FileIOFailure,
    /// The index is not a JSON array of posts.
    IndexParseFailure,
    /// The index could not be written out.
    IndexSerializeFailure,
}

/// The instant that `chrono` reads from a date and time in the notation of RFC 3339, which
/// it takes loosely: the offset from UTC may be any, and a space may stand for the `T`. The
/// instant is given in UTC. `None` where `chrono` reports an error.
pub uninterp spec fn rfc3339_instant(text: Seq<char>) -> Option<Timestamp>;

/// The text that `chrono` writes for an instant in UTC, in the notation of RFC 3339 with as
/// many digits of the second's fraction as the instant needs and `Z` for the offset; `None`
/// where `chrono` cannot hold the instant.
pub uninterp spec fn rfc3339_text(instant: Timestamp) -> Option<Seq<char>>;

/// `str::parse` at type `chrono::DateTime<chrono::Utc>`, which is how `chrono` reads a
/// timestamp from JSON; then `timestamp` and `timestamp_subsec_nanos` of what was read.
#[verifier::external_body]
fn read_rfc3339(text: &str) -> (instant: Option<Timestamp>)
    ensures
        instant == rfc3339_instant(text@),
{
    let read = text.parse::<chrono::DateTime<chrono::Utc>>().ok();
    read.map(|t| Timestamp { secs: t.timestamp(), nanos: t.timestamp_subsec_nanos() })
}

/// `chrono::DateTime::from_timestamp`, then `to_rfc3339_opts` with `SecondsFormat::AutoSi`
/// and `Z`, which is how `chrono` writes a timestamp to JSON.
#[verifier::external_body]
fn write_rfc3339(instant: Timestamp) -> (text: Option<String>)
    ensures
        match text {
            Some(text) => rfc3339_text(instant) == Some(text@),
            None => rfc3339_text(instant) is None,
        },
{
    let held = chrono::DateTime::from_timestamp(instant.secs, instant.nanos);
    held.map(|t| t.to_rfc3339_opts(chrono::SecondsFormat::AutoSi, true))
}

impl Timestamp {
    /// Reads an instant from its RFC 3339 notation.
    pub fn parse_rfc3339(text: &str) -> (instant: Option<Timestamp>)
        ensures
            instant == rfc3339_instant(text@),
    {
        read_rfc3339(text)
    }

    /// The RFC 3339 notation of this instant, if it has one.
    pub fn to_rfc3339(&self) -> (text: Option<String>)
        ensures
            match text {
                Some(text) => rfc3339_text(*self) == Some(text@),
                None => rfc3339_text(*self) is None,
            },
    {
        write_rfc3339(*self)
    }
}

/// What a listing shows of `post`.
pub open spec fn summary_of(post: PostView) -> PostSummaryView {
    PostSummaryView {
        slug: post.slug,
        title: post.title,
        author: post.author,
        created_at: post.created_at,
        updated_at: post.updated_at,
    }
}

/// The values of a vector of posts, in order.
pub open spec fn posts_view(posts: Seq<Post>) -> Seq<PostView> {
    Seq::new(posts.len(), |i: int| posts[i]@)
}

/// The values of a vector of summaries, in order.
pub open spec fn summaries_view(summaries: Seq<PostSummary>) -> Seq<PostSummaryView> {
    Seq::new(summaries.len(), |i: int| summaries[i]@)
}

/// The summaries of `posts`, in order.
pub open spec fn summaries_of(posts: Seq<PostView>) -> Seq<PostSummaryView> {
    Seq::new(posts.len(), |i: int| summary_of(posts[i]))
}

/// The place of the first post with this slug, or the number of posts where there is none.
pub open spec fn position_of(posts: Seq<PostView>, slug: Seq<char>) -> int
    decreases posts.len(),
{
    if posts.len() == 0 {
        0
    } else if posts[0].slug == slug {
        0
    } else {
        1 + position_of(posts.drop_first(), slug)
    }
}

/// Whether a post with this slug is among `posts`.
pub open spec fn has_slug(posts: Seq<PostView>, slug: Seq<char>) -> bool {
    exists|i: int| 0 <= i < posts.len() && #[trigger] posts[i].slug == slug
}

/// `posts` with `post` in the place of the first post that has its slug; `posts` unchanged
/// where none has.
pub open spec fn with_post_replaced(posts: Seq<PostView>, post: PostView) -> Seq<PostView> {
    let at = position_of(posts, post.slug);
    if at < posts.len() {
        posts.update(at, post)
    } else {
        posts
    }
}

/// `posts` without the posts that have this slug.
pub open spec fn without_slug(posts: Seq<PostView>, slug: Seq<char>) -> Seq<PostView> {
    posts.filter(|post: PostView| post.slug != slug)
}

/// The author that every post is given.
pub open spec fn default_author() -> Seq<char> {
    "admin"@
}

/// The post that an edit at `now` puts in place of the post with this slug: title and content
/// as given, the author `admin`, last updated at `now`, and created when the first post with
/// the slug was created. Only where no post has the slug is it created at `now`.
pub open spec fn edited_post(
    posts: Seq<PostView>,
    slug: Seq<char>,
    title: Seq<char>,
    content: Seq<char>,
    now: Timestamp,
) -> PostView {
    let at = position_of(posts, slug);
    PostView {
        slug,
        title,
        author: default_author(),
        created_at: if at < posts.len() {
            posts[at].created_at
        } else {
            now
        },
        updated_at: now,
        content,
    }
}

/// `posts` after an edit at `now`: the first post with the slug gives way to the edited post,
/// and where no post has the slug `posts` stay as they are.
pub open spec fn with_post_edited(
    posts: Seq<PostView>,
    slug: Seq<char>,
    title: Seq<char>,
    content: Seq<char>,
    now: Timestamp,
) -> Seq<PostView> {
    with_post_replaced(posts, edited_post(posts, slug, title, content, now))
}

/// `position_of` is the place of the first post with the slug: no post before it has the
/// slug, and the post at it has, unless it is the number of posts.
pub proof fn lemma_position_of(posts: Seq<PostView>, slug: Seq<char>)
    ensures
        0 <= position_of(posts, slug) <= posts.len(),
        forall|i: int| 0 <= i < position_of(posts, slug) ==> (#[trigger] posts[i]).slug != slug,
        position_of(posts, slug) < posts.len() ==> posts[position_of(posts, slug)].slug == slug,
    decreases posts.len(),
{
    if posts.len() > 0 && posts[0].slug != slug {
        let rest = posts.drop_first();
        lemma_position_of(rest, slug);
        assert forall|i: int| 0 <= i < position_of(posts, slug) implies (#[trigger] posts[i]).slug
            != slug by {
            if i > 0 {
                assert(posts[i] == rest[i - 1]);
            }
        }
    }
}

/// A place is `position_of` where no post before it has the slug and the post at it has, or
/// it is the number of posts.
pub proof fn lemma_position_is(posts: Seq<PostView>, slug: Seq<char>, at: int)
    requires
        0 <= at <= posts.len(),
        forall|i: int| 0 <= i < at ==> (#[trigger] posts[i]).slug != slug,
        at < posts.len() ==> posts[at].slug == slug,
    ensures
        position_of(posts, slug) == at,
{
    lemma_position_of(posts, slug);
}

/// The JSON object that the index holds for a post: `slug`, `title`, `author`, `created_at`,
/// `updated_at` and `content`, in this order, each a string. There is none for a post with
/// a timestamp that cannot be written.
pub open spec fn post_json(post: PostView) -> Option<JsonValue> {
    if rfc3339_text(post.created_at) is Some && rfc3339_text(post.updated_at) is Some {
        Some(
            JsonValue::Object(
                seq![
                    ("slug"@, JsonValue::Text(post.slug)),
                    ("title"@, JsonValue::Text(post.title)),
                    ("author"@, JsonValue::Text(post.author)),
                    ("created_at"@, JsonValue::Text(rfc3339_text(post.created_at).unwrap())),
                    ("updated_at"@, JsonValue::Text(rfc3339_text(post.updated_at).unwrap())),
                    ("content"@, JsonValue::Text(post.content)),
                ],
            ),
        )
    } else {
        None
    }
}

/// The instant that the string under `key` denotes.
pub open spec fn required_instant(doc: JsonValue, key: Seq<char>) -> Option<Timestamp> {
    match doc.required_text(key) {
        Some(text) => rfc3339_instant(text),
        None => None,
    }
}

/// The post that a JSON document holds, if it holds one: an object with strings under
/// `slug`, `title`, `author` and `content`, and timestamps under `created_at` and
/// `updated_at`. Other members are let pass.
pub open spec fn post_of(doc: JsonValue) -> Option<PostView> {
    if doc.required_text("slug"@) is Some && doc.required_text("title"@) is Some
        && doc.required_text("author"@) is Some && required_instant(doc, "created_at"@) is Some
        && required_instant(doc, "updated_at"@) is Some && doc.required_text("content"@)
        is Some {
        Some(
            PostView {
                slug: doc.required_text("slug"@).unwrap(),
                title: doc.required_text("title"@).unwrap(),
                author: doc.required_text("author"@).unwrap(),
                created_at: required_instant(doc, "created_at"@).unwrap(),
                updated_at: required_instant(doc, "updated_at"@).unwrap(),
                content: doc.required_text("content"@).unwrap(),
            },
        )
    } else {
        None
    }
}

/// The JSON array that holds `posts`. There is none where a post cannot be written.
pub open spec fn index_json(posts: Seq<PostView>) -> Option<JsonValue> {
    if forall|i: int| 0 <= i < posts.len() ==> (#[trigger] post_json(posts[i])) is Some {
        Some(JsonValue::Array(Seq::new(posts.len(), |i: int| post_json(posts[i]).unwrap())))
    } else {
        None
    }
}

/// The posts that a JSON document holds, if it is an array of posts.
pub open spec fn index_of(doc: JsonValue) -> Option<Seq<PostView>> {
    match doc {
        JsonValue::Array(items) => if forall|i: int|
            0 <= i < items.len() ==> (#[trigger] post_of(items[i])) is Some {
            Some(Seq::new(items.len(), |i: int| post_of(items[i]).unwrap()))
        } else {
            None
        },
        _ => None,
    }
}

/// The posts that the text of an index holds, if it is JSON and an array of posts.
pub open spec fn index_of_text(text: Seq<char>) -> Option<Seq<PostView>> {
    match json_document(encode_utf8(text)) {
        Some(doc) => index_of(doc),
        None => None,
    }
}

/// The text of the index that holds `posts`: their JSON array, written with indentation.
/// There is none where a post cannot be written.
pub open spec fn index_text(posts: Seq<PostView>) -> Option<Seq<char>> {
    match index_json(posts) {
        Some(doc) => json_pretty_text(doc),
        None => None,
    }
}

/// The six keys of a post in the index differ from one another.
pub proof fn lemma_post_keys_differ()
    ensures
        "slug"@ != "title"@,
        "slug"@ != "author"@,
        "slug"@ != "created_at"@,
        "slug"@ != "updated_at"@,
        "slug"@ != "content"@,
        "title"@ != "author"@,
        "title"@ != "created_at"@,
        "title"@ != "updated_at"@,
        "title"@ != "content"@,
        "author"@ != "created_at"@,
        "author"@ != "updated_at"@,
        "author"@ != "content"@,
        "created_at"@ != "updated_at"@,
        "created_at"@ != "content"@,
        "updated_at"@ != "content"@,
{
    reveal_strlit("slug");
    reveal_strlit("title");
    reveal_strlit("author");
    reveal_strlit("created_at");
    reveal_strlit("updated_at");
    reveal_strlit("content");
    assert("slug"@[0] == 's');
    assert("title"@[0] == 't');
    assert("author"@[0] == 'a');
    assert("created_at"@[0] == 'c');
    assert("created_at"@[1] == 'r');
    assert("updated_at"@[0] == 'u');
    assert("content"@[0] == 'c');
    assert("content"@[1] == 'o');
}

/// A copy of a post.
pub fn copy_post(post: &Post) -> (copy: Post)
    ensures
        copy@ == post@,
{
    Post {
        slug: post.slug.clone(),
        title: post.title.clone(),
        author: post.author.clone(),
        created_at: post.created_at,
        updated_at: post.updated_at,
        content: post.content.clone(),
    }
}

/// What a listing shows of a post.
pub fn summarize(post: &Post) -> (summary: PostSummary)
    ensures
        summary@ == summary_of(post@),
{
    PostSummary {
        slug: post.slug.clone(),
        title: post.title.clone(),
        author: post.author.clone(),
        created_at: post.created_at,
        updated_at: post.updated_at,
    }
}

/// Reads the timestamp under `key`.
fn read_instant(doc: &Json, key: &str) -> (instant: Option<Timestamp>)
    ensures
        instant == required_instant(doc@, key@),
{
    match doc.required_text(key) {
        Some(text) => Timestamp::parse_rfc3339(text.as_str()),
        None => None,
    }
}

/// Reads a post out of a JSON document.
pub fn post_from_json(doc: &Json) -> (post: Option<Post>)
    ensures
        match post {
            Some(post) => post_of(doc@) == Some(post@),
            None => post_of(doc@) is None,
        },
{
    let slug = match doc.required_text("slug") {
        Some(text) => text,
        None => {
            return None;
        },
    };
    let title = match doc.required_text("title") {
        Some(text) => text,
        None => {
            return None;
        },
    };
    let author = match doc.required_text("author") {
        Some(text) => text,
        None => {
            return None;
        },
    };
    let created_at = match read_instant(doc, "created_at") {
        Some(instant) => instant,
        None => {
            return None;
        },
    };
    let updated_at = match read_instant(doc, "updated_at") {
        Some(instant) => instant,
        None => {
            return None;
        },
    };
    let content = match doc.required_text("content") {
        Some(text) => text,
        None => {
            return None;
        },
    };
    Some(Post { slug, title, author, created_at, updated_at, content })
}

/// Writes a post as the JSON object that the index holds for it.
pub fn post_to_json(post: &Post) -> (doc: Option<Json>)
    ensures
        match doc {
            Some(doc) => post_json(post@) == Some(doc@) && doc@.canonical(),
            None => post_json(post@) is None,
        },
{
    let created_at = match post.created_at.to_rfc3339() {
        Some(text) => text,
        None => {
            return None;
        },
    };
    let updated_at = match post.updated_at.to_rfc3339() {
        Some(text) => text,
        None => {
            return None;
        },
    };
    let mut members: Vec<(String, Json)> = Vec::new();
    members.push(("slug".to_owned(), Json::Text(post.slug.clone())));
    members.push(("title".to_owned(), Json::Text(post.title.clone())));
    members.push(("author".to_owned(), Json::Text(post.author.clone())));
    members.push(("created_at".to_owned(), Json::Text(created_at)));
    members.push(("updated_at".to_owned(), Json::Text(updated_at)));
    members.push(("content".to_owned(), Json::Text(post.content.clone())));
    proof {
        lemma_object_view(members);
        lemma_post_keys_differ();
        let fields = members_view(members@);
        assert(fields =~= post_json(post@).unwrap()->Object_0);
        assert(fields[0].1.canonical());
        assert(fields[1].1.canonical());
        assert(fields[2].1.canonical());
        assert(fields[3].1.canonical());
        assert(fields[4].1.canonical());
        assert(fields[5].1.canonical());
    }
    Some(Json::Object(members))
}

/// The index of the store: its posts, in the order in which they were created.
#[derive(Debug, Clone, PartialEq, Eq)]
pub struct PostIndex {
    pub posts: Vec<Post>,
}

impl View for PostIndex {
    type V = Seq<PostView>;

    open spec fn view(&self) -> Seq<PostView> {
        posts_view(self.posts@)
    }
}

impl PostIndex {
    /// The index of a store without posts.
    pub fn new() -> (index: PostIndex)
        ensures
            index@ == Seq::<PostView>::empty(),
    {
        let index = PostIndex { posts: Vec::new() };
        assert(index@ =~= Seq::<PostView>::empty());
        index
    }

    /// Reads an index out of a JSON document.
    pub fn from_json(doc: &Json) -> (index: Option<PostIndex>)
        ensures
            match index {
                Some(index) => index_of(doc@) == Some(index@),
                None => index_of(doc@) is None,
            },
    {
        let items = match doc.as_array() {
            Some(items) => items,
            None => {
                return None;
            },
        };
        let ghost values = array_view(items@);
        let mut posts: Vec<Post> = Vec::new();
        let mut i: usize = 0;
        while i < items.len()
            invariant
                i <= items.len(),
                values == array_view(items@),
                doc@ == JsonValue::Array(values),
                posts@.len() == i,
                forall|k: int| 0 <= k < i ==> post_of(#[trigger] values[k]) == Some(posts@[k]@),
            decreases items.len() - i,
        {
            match post_from_json(&items[i]) {
                Some(post) => {
                    posts.push(post);
                },
                None => {
                    assert(post_of(values[i as int]) is None);
                    return None;
                },
            }
            i += 1;
        }
        let index = PostIndex { posts };
        assert(index_of(doc@).unwrap() =~= index@);
        Some(index)
    }

    /// Writes the index as a JSON array.
    pub fn to_json(&self) -> (doc: Option<Json>)
        ensures
            match doc {
                Some(doc) => index_json(self@) == Some(doc@) && doc@.canonical(),
                None => index_json(self@) is None,
            },
    {
        let mut items: Vec<Json> = Vec::new();
        let mut i: usize = 0;
        while i < self.posts.len()
            invariant
                i <= self.posts.len(),
                items@.len() == i,
                forall|k: int|
                    0 <= k < i ==> post_json(self@[k]) == Some((#[trigger] items@[k])@)
                        && items@[k]@.canonical(),
            decreases self.posts.len() - i,
        {
            match post_to_json(&self.posts[i]) {
                Some(item) => {
                    items.push(item);
                },
                None => {
                    assert(post_json(self@[i as int]) is None);
                    return None;
                },
            }
            i += 1;
        }
        proof {
            lemma_array_view(items);
            let values = array_view(items@);
            assert forall|k: int| 0 <= k < self@.len() implies (#[trigger] post_json(
                self@[k],
            )) is Some by {
                assert(post_json(self@[k]) == Some(items@[k]@));
            }
            assert(index_json(self@).unwrap()->Array_0 =~= values);
            assert forall|k: int| 0 <= k < values.len() implies (#[trigger] values[k]).canonical() by {
                assert(items@[k]@.canonical());
            }
        }
        Some(Json::Array(items))
    }

    /// Reads an index from the text of its file.
    pub fn parse(text: &str) -> (index: Result<PostIndex, StoreError>)
        ensures
            match index {
                Ok(index) => index_of_text(text@) == Some(index@),
                Err(e) => e == StoreError::IndexParseFailure && index_of_text(text@) is None,
            },
    {
        let doc = match parse(text.as_bytes()) {
            Some(doc) => doc,
            None => {
                return Err(StoreError::IndexParseFailure);
            },
        };
        match PostIndex::from_json(&doc) {
            Some(index) => Ok(index),
            None => Err(StoreError::IndexParseFailure),
        }
    }

    /// Writes the index as the text of its file.
    pub fn render(&self) -> (text: Result<String, StoreError>)
        ensures
            match text {
                Ok(text) => index_text(self@) == Some(text@),
                Err(e) => e == StoreError::IndexSerializeFailure && index_text(self@) is None,
            },
    {
        let doc = match self.to_json() {
            Some(doc) => doc,
            None => {
                return Err(StoreError::IndexSerializeFailure);
            },
        };
        match to_pretty(&doc) {
            Some(text) => Ok(text),
            None => Err(StoreError::IndexSerializeFailure),
        }
    }

    /// Adds a post at the end, whatever the index holds already.
    pub fn create(&mut self, post: Post)
        ensures
            final(self)@ == old(self)@.push(post@),
    {
        self.posts.push(post);
        assert(self@ =~= old(self)@.push(post@));
    }

    /// Puts `post` in the place of the first post that has its slug, and says whether there
    /// was one. Where there was none the index stays as it is.
    pub fn update(&mut self, post: Post) -> (replaced: bool)
        ensures
            final(self)@ == with_post_replaced(old(self)@, post@),
            final(self)@.len() == old(self)@.len(),
            replaced == has_slug(old(self)@, post@.slug),
            !replaced ==> final(self)@ == old(self)@,
    {
        let mut i: usize = 0;
        while i < self.posts.len()
            invariant
                i <= self.posts.len(),
                *self == *old(self),
                forall|k: int| 0 <= k < i ==> (#[trigger] self@[k]).slug != post@.slug,
            decreases self.posts.len() - i,
        {
            if crate::text::same_text(self.posts[i].slug.as_str(), post.slug.as_str()) {
                proof {
                    lemma_position_is(self@, post@.slug, i as int);
                    assert(self@[i as int].slug == post@.slug);
                }
                let ghost before = self@;
                self.posts.set(i, post);
                assert(self@ =~= before.update(i as int, post@));
                return true;
            }
            i += 1;
        }
        proof {
            lemma_position_is(self@, post@.slug, i as int);
        }
        false
    }

    /// What a listing shows: the summary of each post, in order.
    pub fn list(&self) -> (summaries: Vec<PostSummary>)
        ensures
            summaries_view(summaries@) == summaries_of(self@),
    {
        let mut summaries: Vec<PostSummary> = Vec::new();
        let mut i: usize = 0;
        while i < self.posts.len()
            invariant
                i <= self.posts.len(),
                summaries@.len() == i,
                forall|k: int| 0 <= k < i ==> (#[trigger] summaries@[k])@ == summary_of(self@[k]),
            decreases self.posts.len() - i,
        {
            summaries.push(summarize(&self.posts[i]));
            i += 1;
        }
        assert(summaries_view(summaries@) =~= summaries_of(self@));
        summaries
    }
}

impl PostIndex {
    /// Takes out every post with this slug, and says whether there was one.
    pub fn remove(&mut self, slug: &str) -> (removed: bool)
        ensures
            final(self)@ == without_slug(old(self)@, slug@),
            removed == has_slug(old(self)@, slug@),
            !removed ==> final(self)@ == old(self)@,
    {
        let ghost all = self@;
        let ghost keep = |post: PostView| post.slug != slug@;
        let mut kept: Vec<Post> = Vec::new();
        let mut removed = false;
        let mut i: usize = 0;
        proof {
            reveal(Seq::filter);
            assert(all.take(0) =~= Seq::<PostView>::empty());
            assert(posts_view(kept@) =~= all.take(0).filter(keep));
        }
        while i < self.posts.len()
            invariant
                i <= self.posts.len(),
                *self == *old(self),
                all == self@,
                keep == |post: PostView| post.slug != slug@,
                posts_view(kept@) == all.take(i as int).filter(keep),
                removed == has_slug(all.take(i as int), slug@),
                !removed ==> posts_view(kept@) == all.take(i as int),
            decreases self.posts.len() - i,
        {
            let ghost before = all.take(i as int);
            let ghost next = all.take(i + 1);
            proof {
                reveal(Seq::filter);
                assert(next.drop_last() =~= before);
                assert(next.last() == all[i as int]);
            }
            if crate::text::same_text(self.posts[i].slug.as_str(), slug) {
                proof {
                    assert(next[i as int].slug == slug@);
                }
                removed = true;
            } else {
                let ghost held = posts_view(kept@);
                kept.push(copy_post(&self.posts[i]));
                proof {
                    assert(posts_view(kept@) =~= held.push(all[i as int]));
                    if has_slug(next, slug@) {
                        let k = choose|k: int| 0 <= k < next.len() && #[trigger] next[k].slug == slug@;
                        assert(before[k].slug == slug@);
                    }
                    if has_slug(before, slug@) {
                        let k = choose|k: int|
                            0 <= k < before.len() && #[trigger] before[k].slug == slug@;
                        assert(next[k].slug == slug@);
                    }
                    if !removed {
                        assert(before.push(all[i as int]) =~= next);
                    }
                }
            }
            i += 1;
        }
        proof {
            assert(all.take(i as int) =~= all);
        }
        self.posts = kept;
        removed
    }
}

/// A post that was created is listed: the listing of an index that a post was added to ends
/// with the summary of that post, behind the summaries that were listed before.
pub proof fn law_created_post_is_listed(posts: Seq<PostView>, post: PostView)
    ensures
        summaries_of(posts.push(post)) == summaries_of(posts).push(summary_of(post)),
        summaries_of(posts.push(post)).contains(summary_of(post)),
{
    let after = summaries_of(posts.push(post));
    assert(after =~= summaries_of(posts).push(summary_of(post)));
    assert(after[posts.len() as int] == summary_of(post));
}

/// An update never changes how many posts the index holds, and one for a slug that the index
/// does not hold leaves the index as it is.
pub proof fn law_update_keeps_count(posts: Seq<PostView>, post: PostView)
    ensures
        with_post_replaced(posts, post).len() == posts.len(),
        !has_slug(posts, post.slug) ==> with_post_replaced(posts, post) == posts,
        has_slug(posts, post.slug) ==> with_post_replaced(posts, post).contains(post),
{
    lemma_position_of(posts, post.slug);
    let at = position_of(posts, post.slug);
    if has_slug(posts, post.slug) {
        let k = choose|k: int| 0 <= k < posts.len() && #[trigger] posts[k].slug == post.slug;
        assert(at <= k);
        assert(with_post_replaced(posts, post)[at] == post);
    } else if at < posts.len() {
        assert(posts[at].slug == post.slug);
    }
}

/// Two posts created one after the other are both in the index, whatever it held before and
/// whatever their slugs.
pub proof fn law_two_creates_keep_both(posts: Seq<PostView>, first: PostView, second: PostView)
    ensures
        posts.push(first).push(second).contains(first),
        posts.push(first).push(second).contains(second),
        posts.push(first).push(second).len() == posts.len() + 2,
        summaries_of(posts.push(first).push(second)).contains(summary_of(first)),
        summaries_of(posts.push(first).push(second)).contains(summary_of(second)),
{
    let after = posts.push(first).push(second);
    assert(after[posts.len() as int] == first);
    assert(after[posts.len() as int + 1] == second);
    assert(summaries_of(after)[posts.len() as int] == summary_of(first));
    assert(summaries_of(after)[posts.len() as int + 1] == summary_of(second));
}

/// No post with a slug is left in an index from which that slug was taken out, and every
/// other post stays.
pub proof fn law_removed_slug_is_gone(posts: Seq<PostView>, slug: Seq<char>)
    ensures
        !has_slug(without_slug(posts, slug), slug),
        forall|i: int|
            0 <= i < posts.len() && (#[trigger] posts[i]).slug != slug ==> without_slug(
                posts,
                slug,
            ).contains(posts[i]),
{
    let keep = |post: PostView| post.slug != slug;
    let left = without_slug(posts, slug);
    if has_slug(left, slug) {
        let k = choose|k: int| 0 <= k < left.len() && #[trigger] left[k].slug == slug;
        posts.lemma_filter_pred(keep, k);
        assert(keep(left[k]));
    }
    assert forall|i: int| 0 <= i < posts.len() && (#[trigger] posts[i]).slug != slug implies left.contains(
        posts[i],
    ) by {
        assert(keep(posts[i]));
        posts.lemma_filter_contains(keep, i);
    }
}

impl PostIndex {
    /// Edits the first post with this slug: it takes the title and the content given and was
    /// last updated at `now`, and keeps the time of its creation. Says whether there was such
    /// a post; where there was none the index stays as it is.
    pub fn edit(&mut self, slug: String, title: String, content: String, now: Timestamp) -> (edited:
        bool)
        ensures
            final(self)@ == with_post_edited(old(self)@, slug@, title@, content@, now),
            final(self)@.len() == old(self)@.len(),
            edited == has_slug(old(self)@, slug@),
            !edited ==> final(self)@ == old(self)@,
    {
        let mut i: usize = 0;
        while i < self.posts.len()
            invariant
                i <= self.posts.len(),
                *self == *old(self),
                forall|k: int| 0 <= k < i ==> (#[trigger] self@[k]).slug != slug@,
            decreases self.posts.len() - i,
        {
            if crate::text::same_text(self.posts[i].slug.as_str(), slug.as_str()) {
                proof {
                    lemma_position_is(self@, slug@, i as int);
                    assert(self@[i as int].slug == slug@);
                }
                let ghost before = self@;
                let created_at = self.posts[i].created_at;
                let post = Post {
                    slug,
                    title,
                    author: "admin".to_owned(),
                    created_at,
                    updated_at: now,
                    content,
                };
                assert(post@ == edited_post(before, post@.slug, post@.title, post@.content, now));
                self.posts.set(i, post);
                assert(self@ =~= before.update(i as int, post@));
                return true;
            }
            i += 1;
        }
        proof {
            lemma_position_is(self@, slug@, i as int);
        }
        false
    }
}

/// An edit keeps the time at which a post was created: the post it puts in place of the first
/// post with the slug was created when that post was, carries the new title and content and
/// was last updated at `now`; every other post, and the number of posts, stay as they were.
/// An edit for a slug that no post has changes nothing.
pub proof fn law_edit_keeps_creation_time(
    posts: Seq<PostView>,
    slug: Seq<char>,
    title: Seq<char>,
    content: Seq<char>,
    now: Timestamp,
)
    ensures
        with_post_edited(posts, slug, title, content, now).len() == posts.len(),
        !has_slug(posts, slug) ==> with_post_edited(posts, slug, title, content, now) == posts,
        has_slug(posts, slug) ==> {
            let at = position_of(posts, slug);
            let after = with_post_edited(posts, slug, title, content, now);
            &&& 0 <= at < posts.len()
            &&& posts[at].slug == slug
            &&& after[at].created_at == posts[at].created_at
            &&& after[at].updated_at == now
            &&& after[at].slug == slug
            &&& after[at].title == title
            &&& after[at].content == content
            &&& forall|i: int| 0 <= i < posts.len() && i != at ==> after[i] == posts[i]
        },
{
    lemma_position_of(posts, slug);
    let at = position_of(posts, slug);
    if has_slug(posts, slug) {
        let k = choose|k: int| 0 <= k < posts.len() && #[trigger] posts[k].slug == slug;
        assert(at <= k);
    } else if at < posts.len() {
        assert(posts[at].slug == slug);
    }
}

} // verus!
