use lobsters_mirror::model::{Comment, Story, User};
use lobsters_mirror::render::{
    build_comments_page, indent_comment, indent_prefix, render_index, render_thread,
    stories_to_finger, stories_to_geminimap, thread_file_name, Dialect,
};
use lobsters_mirror::time::{pretty_date, Instant};

fn story(title: &str, url: &str, score: i8, short_id: &str) -> Story {
    Story {
        title: title.to_string(),
        created_at: "2020-06-01T12:30:00.000-05:00".to_string(),
        score,
        comment_count: 7,
        short_id: short_id.to_string(),
        short_id_url: format!("https://lobste.rs/s/{}", short_id),
        url: url.to_string(),
        tags: vec!["rust".to_string(), "web".to_string()],
        submitter_user: User { username: "alice".to_string() },
    }
}

fn comment(body: &str, depth: u8) -> Comment {
    Comment {
        comment: body.to_string(),
        created_at: "2020-06-01T12:30:00.000-05:00".to_string(),
        score: 3,
        depth,
        commenting_user: User { username: "bob".to_string() },
    }
}

fn epoch() -> Instant {
    Instant::from_unix_seconds(0).unwrap()
}

#[test]
fn example_story_renders_transliterated_title_and_permalink() {
    let s = story("Hello \u{2014} World", "", 5, "abc1");
    let index = stories_to_geminimap(&vec![s], &epoch());
    assert!(index.contains("[5] - Hello -- World"));
    assert!(index.contains("=> https://lobste.rs/s/abc1 [5] - Hello -- World\n"));
    let s = story("Hello \u{2014} World", "", 5, "abc1");
    assert_eq!(thread_file_name(&s, Dialect::Gemini), "abc1.gmi");
    assert_eq!(thread_file_name(&s, Dialect::Plain), "abc1.txt");
    assert!(index.contains("=> abc1.gmi View comments (7)\n\n"));
}

#[test]
fn self_post_plain_line_has_no_separate_address() {
    let s = story("Ask: anything", "", -3, "q1");
    let index = stories_to_finger(&vec![s], &epoch());
    assert!(index.contains("\n[-3] - Ask: anything\nSubmitted "));
    assert!(!index.contains("https://lobste.rs/s/q1\n"));
    assert!(index.contains("View 7 comments q1.txt\n"));
}

#[test]
fn index_titles_are_ascii() {
    let s = story("\u{5317}\u{4eb0} \u{2014} na\u{ef}ve \u{1f984}", "", 1, "u");
    let index = stories_to_geminimap(&vec![s], &epoch());
    assert!(index.is_ascii());
    assert!(index.contains("] - Bei Jing -- naive unicorn"));
}

#[test]
fn https_links_are_downgraded() {
    let s = story("T", "https://example.com/a?b=https", 1, "x");
    let index = render_index(&vec![s], Dialect::Gemini, &epoch());
    assert!(index.contains("=> http://example.com/a?b=https [1] - T\n"));
    let s = story("T", "https://example.com/a", 1, "x");
    let plain = render_index(&vec![s], Dialect::Plain, &epoch());
    assert!(plain.contains("\n[1] - T\nhttp://example.com/a\n"));
}

#[test]
fn other_links_are_kept() {
    let s = story("T", "gopher://example.org/1", 1, "x");
    let index = render_index(&vec![s], Dialect::Gemini, &epoch());
    assert!(index.contains("=> gopher://example.org/1 [1] - T\n"));
}

#[test]
fn full_entry_in_gemini() {
    let s = story("Caf\u{e9}", "http://a.b", 12, "zz9");
    let index = render_index(&vec![s], Dialect::Gemini, &epoch());
    let expected = "=> http://a.b [12] - Cafe\n> Submitted Mon Jun  1 17:30:00 2020 by alice | rust, web\n=> zz9.gmi View comments (7)\n\n";
    assert!(index.ends_with(expected));
    assert!(index.contains("Last updated Thu Jan  1 00:00:00 1970\n\n"));
}

#[test]
fn index_header_is_dated_with_now() {
    let now = Instant::from_unix_seconds(86400).unwrap();
    let index = render_index(&Vec::new(), Dialect::Gemini, &now);
    assert!(index.ends_with("Last updated Fri Jan  2 00:00:00 1970\n\n"));
    assert!(index.starts_with("\n```\n"));
    let plain = render_index(&Vec::new(), Dialect::Plain, &now);
    assert!(plain.ends_with("Last updated Fri Jan  2 00:00:00 1970\n\n"));
    assert!(!plain.contains("```"));
}

#[test]
fn malformed_date_falls_back_to_now() {
    let now = Instant::from_unix_seconds(1_000_000_000).unwrap();
    assert_eq!(pretty_date("not a date", &now), "Sun Sep  9 01:46:40 2001");
    assert_eq!(pretty_date("", &now), "Sun Sep  9 01:46:40 2001");
    let mut s = story("T", "", 1, "x");
    s.created_at = "yesterday".to_string();
    let index = render_index(&vec![s], Dialect::Plain, &now);
    assert!(index.contains("Submitted Sun Sep  9 01:46:40 2001 by alice | rust, web\n"));
}

#[test]
fn well_formed_date_is_used() {
    let now = epoch();
    assert_eq!(pretty_date("2001-09-09T01:46:40Z", &now), "Sun Sep  9 01:46:40 2001");
    assert_eq!(pretty_date("2001-09-09 03:46:40+02:00", &now), "Sun Sep  9 01:46:40 2001");
}

#[test]
fn rendering_twice_is_identical() {
    let now = Instant::from_unix_seconds(1_600_000_000).unwrap();
    let a = vec![story("One", "https://x.y", 4, "a"), story("Two \u{e9}", "", 9, "b")];
    let b = vec![story("One", "https://x.y", 4, "a"), story("Two \u{e9}", "", 9, "b")];
    assert_eq!(render_index(&a, Dialect::Gemini, &now), render_index(&b, Dialect::Gemini, &now));
    let cs = vec![comment("<p>hi</p>", 0), comment("reply", 1)];
    let s = story("One", "", 4, "a");
    assert_eq!(build_comments_page(&cs, &s), build_comments_page(&cs, &s));
}

#[test]
fn indentation_is_clamped() {
    assert_eq!(indent_prefix(0), "");
    assert_eq!(indent_prefix(2), "\t\t");
    assert_eq!(indent_prefix(3), "\t\t\t");
    assert_eq!(indent_prefix(200), "\t\t\t");
    assert_eq!(indent_comment("deep words", 9), indent_comment("deep words", 3));
    assert_eq!(indent_comment("deep words", 9), "\t\t\tdeep words");
    assert_eq!(indent_comment("top", 0), "top");
    assert_eq!(indent_comment("a\n\nb\n", 2), "\t\ta\n\n\t\tb\n");
}

#[test]
fn long_comment_lines_are_wrapped() {
    let body = "word ".repeat(30);
    let out = indent_comment(&body, 1);
    for line in out.lines() {
        assert!(line.starts_with('\t'));
        assert!(line.len() <= 61);
    }
    assert!(out.lines().count() > 1);
}

#[test]
fn thread_page_strips_tags_and_indents() {
    let s = story("Caf\u{e9} talk", "", 1, "t1");
    let cs = vec![
        comment("<p>Hello <b>there</b></p>", 0),
        comment("<p>nested \u{2014} reply</p>", 1),
    ];
    let page = build_comments_page(&cs, &s);
    assert!(page.contains("Viewing comments for \"Cafe talk\"\n---\n\n"));
    assert!(page.contains("> bob commented [3]:\nHello there\n"));
    assert!(page.contains("\t> bob commented [3]:\n\tnested -- reply\n"));
    assert!(!page.contains("<p>"));
    let plain = render_thread(&cs, &s, Dialect::Plain);
    assert!(plain.contains("bob commented [3]:\nHello there\n"));
    assert!(!plain.contains("> bob"));
}

#[test]
fn thread_page_of_no_comments_is_its_title() {
    let s = story("Quiet", "", 1, "q");
    let page = render_thread(&Vec::new(), &s, Dialect::Gemini);
    assert!(page.ends_with("Viewing comments for \"Quiet\"\n---\n\n"));
}
