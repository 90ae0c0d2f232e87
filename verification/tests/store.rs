use blog_backend::json::{parse, to_pretty, Json, JsonNumber};
use blog_backend::markdown::reader::{
    list_posts, markdown_file_name, markdown_to_html, post_page, read_and_render_markdown,
};
use blog_backend::markdown::writer::{
    create_post, delete_post, edit_post, new_post, update_post, update_posts_json,
};
use blog_backend::markdown::{Post, PostIndex, PostSummary, StoreError, Timestamp};
use blog_backend::text::{same_text, strip_prefix, strip_prefix_repeated, trim};
use blog_backend::utils::generate_slug;

fn at(secs: i64) -> Timestamp {
    Timestamp { secs, nanos: 0 }
}

fn post(slug: &str, title: &str, content: &str) -> Post {
    Post {
        slug: slug.to_string(),
        title: title.to_string(),
        author: "admin".to_string(),
        created_at: at(1431648000),
        updated_at: Timestamp { secs: 1431648001, nanos: 500_000_000 },
        content: content.to_string(),
    }
}

fn summary(post: &Post) -> PostSummary {
    PostSummary {
        slug: post.slug.clone(),
        title: post.title.clone(),
        author: post.author.clone(),
        created_at: post.created_at,
        updated_at: post.updated_at,
    }
}

#[test]
fn slug_is_made_of_the_title() {
    assert_eq!(generate_slug("My Test String!!!1!1"), "my-test-string-1-1");
    assert_eq!(generate_slug("  --test_-_cool"), "test-cool");
    assert_eq!(generate_slug("\u{c6}\u{fa}\u{171}--cool?"), "aeuu-cool");
    assert_eq!(generate_slug(""), "");
    assert_eq!(generate_slug("Hello World"), generate_slug("Hello World"));
}

#[test]
fn slug_is_url_safe() {
    for title in ["Hello, World!", " a  b ", "---", "\u{4f60}\u{597d} blog/post?x=1&y=2#z", "\t\n"] {
        let slug = generate_slug(title);
        assert!(slug.chars().all(|c| c.is_ascii_lowercase() || c.is_ascii_digit() || c == '-'));
        assert!(!slug.starts_with('-') && !slug.ends_with('-') && !slug.contains("--"));
    }
}

#[test]
fn markdown_becomes_html() {
    assert_eq!(markdown_to_html("# Hi Mercury!"), "<h1>Hi Mercury!</h1>");
    assert_eq!(markdown_to_html("a *b* c"), "<p>a <em>b</em> c</p>");
    assert_eq!(markdown_to_html(""), "");
}

#[test]
fn reading_a_missing_file_is_not_found() {
    assert_eq!(read_and_render_markdown(None), Err(StoreError::FileNotFound));
    assert_eq!(read_and_render_markdown(Some("# T")), Ok("<h1>T</h1>".to_string()));
}

#[test]
fn every_read_failure_shows_the_same_page() {
    let missing = "<h1>Post not found</h1><p>The requested post could not be found.</p>";
    assert_eq!(post_page(Err(StoreError::FileNotFound)), missing);
    assert_eq!(post_page(Err(StoreError::FileIOFailure)), missing);
    assert_eq!(post_page(Ok("<p>x</p>".to_string())), "<p>x</p>");
    assert_eq!(post_page(read_and_render_markdown(None)), missing);
}

#[test]
fn markdown_file_is_named_by_the_slug() {
    assert_eq!(markdown_file_name("hello-world"), "hello-world.md");
    assert_eq!(markdown_file_name(""), ".md");
}

#[test]
fn timestamps_are_written_as_rfc3339() {
    assert_eq!(at(1431648000).to_rfc3339(), Some("2015-05-15T00:00:00Z".to_string()));
    assert_eq!(
        Timestamp { secs: 0, nanos: 500_000_000 }.to_rfc3339(),
        Some("1970-01-01T00:00:00.500Z".to_string())
    );
    assert_eq!(
        Timestamp { secs: -1, nanos: 1 }.to_rfc3339(),
        Some("1969-12-31T23:59:59.000000001Z".to_string())
    );
    assert_eq!(at(i64::MAX).to_rfc3339(), None);
    assert_eq!(Timestamp { secs: 0, nanos: 2_000_000_000 }.to_rfc3339(), None);
}

#[test]
fn timestamps_are_read_as_rfc3339() {
    assert_eq!(Timestamp::parse_rfc3339("2015-05-15T00:00:00Z"), Some(at(1431648000)));
    assert_eq!(Timestamp::parse_rfc3339("2015-05-15T02:00:00+02:00"), Some(at(1431648000)));
    assert_eq!(
        Timestamp::parse_rfc3339("1970-01-01T00:00:00.25Z"),
        Some(Timestamp { secs: 0, nanos: 250_000_000 })
    );
    assert_eq!(Timestamp::parse_rfc3339("yesterday"), None);
    assert_eq!(Timestamp::parse_rfc3339(""), None);
}

#[test]
fn create_then_list_includes_the_post() {
    let first = post("first", "First", "# One");
    let writes = create_post(&first, None);
    assert_eq!(writes.markdown, "# One");
    let index = writes.index.unwrap();
    assert_eq!(list_posts(Some(index.as_str())), Ok(vec![summary(&first)]));
    let second = post("second", "Second", "two");
    let writes = create_post(&second, Some(index.as_str()));
    let index = writes.index.unwrap();
    assert_eq!(list_posts(Some(index.as_str())), Ok(vec![summary(&first), summary(&second)]));
}

#[test]
fn create_then_read_renders_the_content() {
    let first = post("first", "First", "# One\n\nText with **bold**.");
    let writes = create_post(&first, None);
    let html = read_and_render_markdown(Some(writes.markdown.as_str())).unwrap();
    assert_eq!(html, "<h1>One</h1>\n<p>Text with <strong>bold</strong>.</p>");
}

#[test]
fn index_is_written_with_indentation() {
    let writes = create_post(&post("s", "T \"q\"", "c\n"), None);
    let expected = "[\n  {\n    \"slug\": \"s\",\n    \"title\": \"T \\\"q\\\"\",\n    \
        \"author\": \"admin\",\n    \"created_at\": \"2015-05-15T00:00:00Z\",\n    \
        \"updated_at\": \"2015-05-15T00:00:01.500Z\",\n    \"content\": \"c\\n\"\n  }\n]";
    assert_eq!(writes.index, Ok(expected.to_string()));
}

#[test]
fn update_of_an_absent_slug_keeps_the_index() {
    let first = post("first", "First", "one");
    let index = create_post(&first, None).index.unwrap();
    let ghost = post("ghost", "Ghost", "boo");
    let writes = update_post(&ghost, Some(index.as_str()));
    assert_eq!(writes.markdown, "boo");
    let after = writes.index.unwrap();
    assert_eq!(after, index);
    assert_eq!(list_posts(Some(after.as_str())).unwrap().len(), 1);
    let writes = update_post(&ghost, None);
    assert_eq!(writes.markdown, "boo");
    assert_eq!(writes.index, Ok("[]".to_string()));
}

#[test]
fn update_replaces_the_first_post_with_the_slug() {
    let index = create_post(&post("a", "A", "1"), None).index.unwrap();
    let index = create_post(&post("b", "B", "2"), Some(index.as_str())).index.unwrap();
    let index = create_post(&post("a", "A again", "3"), Some(index.as_str())).index.unwrap();
    let edited = post("a", "Edited", "4");
    let index = update_post(&edited, Some(index.as_str())).index.unwrap();
    let listing = list_posts(Some(index.as_str())).unwrap();
    let titles: Vec<&str> = listing.iter().map(|s| s.title.as_str()).collect();
    assert_eq!(titles, vec!["Edited", "B", "A again"]);
    let read = PostIndex::parse(index.as_str()).unwrap();
    assert_eq!(read.posts[0], edited);
}

#[test]
fn delete_takes_every_post_with_the_slug() {
    let index = create_post(&post("a", "A", "1"), None).index.unwrap();
    let index = create_post(&post("b", "B", "2"), Some(index.as_str())).index.unwrap();
    let index = create_post(&post("a", "A again", "3"), Some(index.as_str())).index.unwrap();
    let after = delete_post("a", Some(index.as_str())).unwrap();
    assert_eq!(list_posts(Some(after.as_str())), Ok(vec![summary(&post("b", "B", "2"))]));
    assert_eq!(delete_post("zzz", Some(after.as_str())), Ok(after.clone()));
    assert_eq!(delete_post("a", None), Ok("[]".to_string()));
    assert_eq!(delete_post("a", Some("{")), Err(StoreError::IndexParseFailure));
}

#[test]
fn two_creates_keep_both_posts() {
    let a = post("a", "A", "1");
    let b = post("b", "B", "2");
    let index = update_posts_json(None, &a, true).unwrap();
    let index = update_posts_json(Some(index.as_str()), &b, true).unwrap();
    let listing = list_posts(Some(index.as_str())).unwrap();
    assert!(listing.contains(&summary(&a)));
    assert!(listing.contains(&summary(&b)));
    assert_eq!(listing.len(), 2);
}

#[test]
fn missing_or_malformed_index_fails_the_listing() {
    assert_eq!(list_posts(None), Err(StoreError::FileIOFailure));
    assert_eq!(list_posts(Some("")), Err(StoreError::IndexParseFailure));
    assert_eq!(list_posts(Some("{}")), Err(StoreError::IndexParseFailure));
    assert_eq!(list_posts(Some("[{\"slug\":\"a\"}]")), Err(StoreError::IndexParseFailure));
    assert_eq!(list_posts(Some("[]")), Ok(vec![]));
    let bad_time = "[{\"slug\":\"s\",\"title\":\"t\",\"author\":\"a\",\"created_at\":\"x\",\
        \"updated_at\":\"2015-05-15T00:00:00Z\",\"content\":\"c\"}]";
    assert_eq!(list_posts(Some(bad_time)), Err(StoreError::IndexParseFailure));
}

#[test]
fn malformed_index_fails_the_write_but_not_the_markdown() {
    let writes = create_post(&post("a", "A", "text"), Some("not json"));
    assert_eq!(writes.markdown, "text");
    assert_eq!(writes.index, Err(StoreError::IndexParseFailure));
    let writes = update_post(&post("a", "A", "text"), Some("[1]"));
    assert_eq!(writes.markdown, "text");
    assert_eq!(writes.index, Err(StoreError::IndexParseFailure));
}

#[test]
fn unwritable_timestamp_fails_the_index() {
    let mut broken = post("a", "A", "text");
    broken.created_at = at(i64::MAX);
    let writes = create_post(&broken, None);
    assert_eq!(writes.markdown, "text");
    assert_eq!(writes.index, Err(StoreError::IndexSerializeFailure));
}

#[test]
fn timestamps_are_normalized_to_utc() {
    let text = "[{\"slug\":\"s\",\"title\":\"t\",\"author\":\"a\",\
        \"created_at\":\"2015-05-15T02:00:00+02:00\",\"updated_at\":\"2015-05-15 00:00:00Z\",\
        \"content\":\"c\",\"extra\":1}]";
    let index = PostIndex::parse(text).unwrap();
    assert_eq!(index.posts[0].created_at, at(1431648000));
    let rendered = index.render().unwrap();
    assert!(rendered.contains("\"created_at\": \"2015-05-15T00:00:00Z\""));
    assert!(!rendered.contains("extra"));
}

#[test]
fn index_operations_work_in_memory() {
    let mut index = PostIndex::new();
    assert_eq!(index.list(), vec![]);
    index.create(post("a", "A", "1"));
    index.create(post("b", "B", "2"));
    assert!(!index.update(post("c", "C", "3")));
    assert_eq!(index.posts.len(), 2);
    assert!(index.update(post("b", "B2", "4")));
    assert_eq!(index.posts[1].title, "B2");
    assert_eq!(index.list().len(), 2);
    assert!(!index.remove("c"));
    assert!(index.remove("a"));
    assert_eq!(index.list(), vec![summary(&post("b", "B2", "4"))]);
}

#[test]
fn new_post_takes_its_slug_from_the_title() {
    let now = Timestamp { secs: 10, nanos: 20 };
    let made = new_post("Hello, World!".to_string(), "body".to_string(), now);
    assert_eq!(
        made,
        Post {
            slug: "hello-world".to_string(),
            title: "Hello, World!".to_string(),
            author: "admin".to_string(),
            created_at: now,
            updated_at: now,
            content: "body".to_string(),
        }
    );
}

#[test]
fn edit_keeps_the_creation_time() {
    let index = create_post(&post("a", "A", "1"), None).index.unwrap();
    let index = create_post(&post("b", "B", "2"), Some(index.as_str())).index.unwrap();
    let now = Timestamp { secs: 1600000000, nanos: 7 };
    let writes = edit_post(
        "a".to_string(),
        "A edited".to_string(),
        "new text".to_string(),
        now,
        Some(index.as_str()),
    );
    assert_eq!(writes.markdown, "new text");
    let read = PostIndex::parse(writes.index.unwrap().as_str()).unwrap();
    assert_eq!(
        read.posts[0],
        Post {
            slug: "a".to_string(),
            title: "A edited".to_string(),
            author: "admin".to_string(),
            created_at: at(1431648000),
            updated_at: now,
            content: "new text".to_string(),
        }
    );
    assert_eq!(read.posts[1], post("b", "B", "2"));
    assert_eq!(read.posts.len(), 2);
}

#[test]
fn edit_of_an_absent_slug_keeps_the_index() {
    let index = create_post(&post("a", "A", "1"), None).index.unwrap();
    let now = at(1600000000);
    let writes =
        edit_post("zz".to_string(), "T".to_string(), "body".to_string(), now, Some(index.as_str()));
    assert_eq!(writes.markdown, "body");
    assert_eq!(writes.index, Ok(index));
    let writes = edit_post("zz".to_string(), "T".to_string(), "body".to_string(), now, None);
    assert_eq!(writes.markdown, "body");
    assert_eq!(writes.index, Ok("[]".to_string()));
    let writes = edit_post("zz".to_string(), "T".to_string(), "body".to_string(), now, Some("{"));
    assert_eq!(writes.markdown, "body");
    assert_eq!(writes.index, Err(StoreError::IndexParseFailure));
}

#[test]
fn edit_in_memory_touches_only_the_first_post_with_the_slug() {
    let mut index = PostIndex::new();
    index.create(post("a", "A", "1"));
    index.create(post("a", "A2", "2"));
    let now = at(5);
    assert!(index.edit("a".to_string(), "T".to_string(), "c".to_string(), now));
    assert_eq!(index.posts[0].title, "T");
    assert_eq!(index.posts[0].created_at, at(1431648000));
    assert_eq!(index.posts[0].updated_at, now);
    assert_eq!(index.posts[1], post("a", "A2", "2"));
    assert!(!index.edit("b".to_string(), "T".to_string(), "c".to_string(), now));
    assert_eq!(index.posts.len(), 2);
}

#[test]
fn json_documents_are_read_and_written() {
    let doc = parse(b" {\"b\": [1, -1, 1.5, 18446744073709551615], \"a\": {\"k\": null}} ").unwrap();
    let b = doc.get("b").unwrap().as_array().unwrap();
    assert_eq!(b[0].as_u64(), Some(1));
    assert_eq!(b[0].as_i64(), Some(1));
    assert_eq!(b[1].as_u64(), None);
    assert_eq!(b[1].as_i64(), Some(-1));
    assert_eq!(b[2], Json::Number(JsonNumber::Float(0x3ff8000000000000)));
    assert_eq!(b[2].as_i64(), None);
    assert_eq!(b[3].as_u64(), Some(u64::MAX));
    assert_eq!(b[3].as_i64(), None);
    assert!(doc.get("a").unwrap().get("k").unwrap().is_null());
    assert_eq!(doc.get("c"), None);
    assert_eq!(doc.get("a").unwrap().as_text(), None);
    assert_eq!(b[0].get("x"), None);
    match &doc {
        Json::Object(members) => assert_eq!(members[0].0, "b"),
        _ => panic!("an object was read"),
    }
    assert_eq!(parse(b"{\"a\":1,}"), None);
    assert_eq!(parse(b""), None);
    assert_eq!(parse(b"1 2"), None);
    let out = Json::Object(vec![
        ("z".to_string(), Json::Bool(false)),
        ("a".to_string(), Json::text_array(&vec!["x".to_string()])),
        ("n".to_string(), Json::integer(-7)),
    ]);
    assert_eq!(
        to_pretty(&out),
        Some("{\n  \"z\": false,\n  \"a\": [\n    \"x\"\n  ],\n  \"n\": -7\n}".to_string())
    );
    assert_eq!(parse(to_pretty(&out).unwrap().as_bytes()), Some(out));
}

#[test]
fn json_members_are_read_by_type() {
    let doc = parse(b"{\"t\":\"x\",\"n\":null,\"l\":[\"a\",\"b\"],\"m\":[\"a\",1],\"f\":true,\"i\":-4}")
        .unwrap();
    assert_eq!(doc.required_text("t"), Some("x".to_string()));
    assert_eq!(doc.required_text("n"), None);
    assert_eq!(doc.required_text("zz"), None);
    assert_eq!(doc.optional_text("t"), Some(Some("x".to_string())));
    assert_eq!(doc.optional_text("n"), Some(None));
    assert_eq!(doc.optional_text("zz"), Some(None));
    assert_eq!(doc.optional_text("f"), None);
    assert_eq!(doc.required_text_list("l"), Some(vec!["a".to_string(), "b".to_string()]));
    assert_eq!(doc.required_text_list("m"), None);
    assert_eq!(doc.optional_text_list("n"), Some(None));
    assert_eq!(doc.optional_text_list("m"), None);
    assert_eq!(doc.optional_flag("f"), Some(Some(true)));
    assert_eq!(doc.optional_flag("t"), None);
    assert_eq!(doc.required_signed("i"), Some(-4));
    assert_eq!(doc.required_unsigned("i"), None);
    assert_eq!(doc.get("l").unwrap().as_text_list(), Some(vec!["a".to_string(), "b".to_string()]));
    assert_eq!(doc.get("f").unwrap().as_bool(), Some(true));
}

#[test]
fn text_helpers_cut_prefixes_and_white_space() {
    assert!(same_text("a\u{e9}", "a\u{e9}"));
    assert!(!same_text("a", "A"));
    assert_eq!(strip_prefix("\u{e9}t\u{e9}", "\u{e9}"), Some("t\u{e9}"));
    assert_eq!(strip_prefix("abc", "abcd"), None);
    assert_eq!(strip_prefix("abc", ""), Some("abc"));
    assert_eq!(strip_prefix_repeated("ababab-ab", "ab"), "-ab");
    assert_eq!(strip_prefix_repeated("abc", ""), "abc");
    assert_eq!(trim(" \u{2003}a b\r\n"), "a b");
    assert_eq!(trim("a"), "a");
    assert_eq!(trim(""), "");
    assert_eq!(trim("\u{85}\u{1680}\u{2028}\u{202f}\u{205f}x\u{2029}\u{200a}\u{b}\u{c}"), "x");
    assert_eq!(trim("\u{200b}x\u{feff}"), "\u{200b}x\u{feff}");
    assert_eq!(trim("\u{1c}x\u{180e}"), "\u{1c}x\u{180e}");
}
