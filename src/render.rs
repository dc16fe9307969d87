//! The documents: an index of the stories, and one document per story thread,
//! in either of two dialects.

use vstd::prelude::*;
use crate::model::{Comment, Story};
use crate::text::{
    all_ascii, ascii_of, cleaned, cleanup, decimal, downgrade_scheme, downgraded, fill, filled, indent,
    indented, join, joined, plain_scheme, push_decimal, secure_scheme, starts_with, transliterate,
    views_of,
};
use crate::time::{date_text, dated, instant_of, pretty_date, Instant};

verus! {

/// The output dialects.
#[derive(Clone, Copy, Debug, PartialEq, Eq)]
pub enum Dialect {
    /// Gemini text: link lines and quote lines.
    Gemini,
    /// Plain text, for line-oriented protocols without links.
    Plain,
}

/// The column width that comment text is filled to.
pub const WRAP_WIDTH: usize = 60;

/// The deepest indentation level; deeper comments are indented as this one.
pub const MAX_INDENT: u8 = 3;

impl Dialect {
    /// The file extension of a document, dot included.
    pub open spec fn ext(self) -> Seq<char> {
        match self {
            Dialect::Gemini => ".gmi"@,
            Dialect::Plain => ".txt"@,
        }
    }

    /// The file extension of a document, dot included.
    pub fn extension(&self) -> (r: &'static str)
        ensures
            r@ == self.ext(),
    {
        match self {
            Dialect::Gemini => ".gmi",
            Dialect::Plain => ".txt",
        }
    }

    /// The file name of the index document.
    pub open spec fn index_file(self) -> Seq<char> {
        match self {
            Dialect::Gemini => "index.gmi"@,
            Dialect::Plain => "index.txt"@,
        }
    }

    /// The file name of the index document.
    pub fn index_name(&self) -> (r: &'static str)
        ensures
            r@ == self.index_file(),
    {
        match self {
            Dialect::Gemini => "index.gmi",
            Dialect::Plain => "index.txt",
        }
    }

    /// What opens a line of metadata.
    pub open spec fn quote(self) -> Seq<char> {
        match self {
            Dialect::Gemini => "> "@,
            Dialect::Plain => ""@,
        }
    }

    /// What opens a line of metadata.
    pub fn quote_mark(&self) -> (r: &'static str)
        ensures
            r@ == self.quote(),
    {
        match self {
            Dialect::Gemini => "> ",
            Dialect::Plain => "",
        }
    }
}

/// The name of a story's thread document: its short id and the extension.
pub open spec fn thread_file(s: Story, d: Dialect) -> Seq<char> {
    s.short_id@ + d.ext()
}

/// The name of a story's thread document: its short id and the extension.
pub fn thread_file_name(story: &Story, dialect: Dialect) -> (r: String)
    ensures
        r@ == thread_file(*story, dialect),
{
    let mut out = story.short_id.clone();
    out.append(dialect.extension());
    out
}

/// Where a story's line points: its permalink for a story without a link,
/// else its link with `https` downgraded to `http`.
pub open spec fn link_target(s: Story) -> Seq<char> {
    if s.url@.len() == 0 {
        s.short_id_url@
    } else {
        downgraded(s.url@)
    }
}

/// The line that names a story, with its score and title.
pub open spec fn story_line(s: Story, d: Dialect) -> Seq<char> {
    match d {
        Dialect::Gemini => "=> "@ + link_target(s) + " ["@ + decimal(s.score as int) + "] - "@
            + ascii_of(s.title@) + "\n"@,
        Dialect::Plain => "\n["@ + decimal(s.score as int) + "] - "@ + ascii_of(s.title@) + "\n"@
            + if s.url@.len() == 0 {
            Seq::empty()
        } else {
            link_target(s) + "\n"@
        },
    }
}

/// The line with a story's date, submitter and tags.
pub open spec fn meta_line(s: Story, d: Dialect, now: Instant) -> Seq<char> {
    d.quote() + "Submitted "@ + date_text(dated(s.created_at@, now)) + " by "@
        + s.submitter_user.username@ + " | "@ + joined(views_of(s.tags@), ", "@) + "\n"@
}

/// The line with a story's comment count and its thread document.
pub open spec fn comments_line(s: Story, d: Dialect) -> Seq<char> {
    match d {
        Dialect::Gemini => "=> "@ + thread_file(s, d) + " View comments ("@ + decimal(
            s.comment_count as int,
        ) + ")\n\n"@,
        Dialect::Plain => "View "@ + decimal(s.comment_count as int) + " comments "@ + thread_file(
            s,
            d,
        ) + "\n"@,
    }
}

/// The lines of one story in the index.
pub open spec fn story_entry(s: Story, d: Dialect, now: Instant) -> Seq<char> {
    story_line(s, d) + meta_line(s, d, now) + comments_line(s, d)
}

/// The lines of the given stories in the index, in their order.
pub open spec fn story_entries(stories: Seq<Story>, d: Dialect, now: Instant) -> Seq<char>
    decreases stories.len(),
{
    if stories.len() == 0 {
        Seq::empty()
    } else {
        story_entries(stories.drop_last(), d, now) + story_entry(stories.last(), d, now)
    }
}

fn push_story_line(out: &mut String, story: &Story, dialect: Dialect)
    ensures
        final(out)@ == old(out)@ + story_line(*story, dialect),
        all_ascii(ascii_of(story.title@)),
{
    let title = transliterate(story.title.as_str());
    let has_link = story.url.unicode_len() > 0;
    match dialect {
        Dialect::Gemini => {
            out.append("=> ");
            if has_link {
                let link = downgrade_scheme(story.url.as_str());
                out.append(link.as_str());
            } else {
                out.append(story.short_id_url.as_str());
            }
            out.append(" [");
            push_decimal(out, story.score as i64);
            out.append("] - ");
            out.append(title.as_str());
            out.append("\n");
        },
        Dialect::Plain => {
            out.append("\n[");
            push_decimal(out, story.score as i64);
            out.append("] - ");
            out.append(title.as_str());
            out.append("\n");
            if has_link {
                let link = downgrade_scheme(story.url.as_str());
                out.append(link.as_str());
                out.append("\n");
            }
        },
    }
}

fn push_meta_line(out: &mut String, story: &Story, dialect: Dialect, now: &Instant)
    ensures
        final(out)@ == old(out)@ + meta_line(*story, dialect, *now),
{
    let date = pretty_date(story.created_at.as_str(), now);
    let tags = join(&story.tags, ", ");
    out.append(dialect.quote_mark());
    out.append("Submitted ");
    out.append(date.as_str());
    out.append(" by ");
    out.append(story.submitter_user.username.as_str());
    out.append(" | ");
    out.append(tags.as_str());
    out.append("\n");
}

fn push_comments_line(out: &mut String, story: &Story, dialect: Dialect)
    ensures
        final(out)@ == old(out)@ + comments_line(*story, dialect),
{
    let file = thread_file_name(story, dialect);
    match dialect {
        Dialect::Gemini => {
            out.append("=> ");
            out.append(file.as_str());
            out.append(" View comments (");
            push_decimal(out, story.comment_count as i64);
            out.append(")\n\n");
        },
        Dialect::Plain => {
            out.append("View ");
            push_decimal(out, story.comment_count as i64);
            out.append(" comments ");
            out.append(file.as_str());
            out.append("\n");
        },
    }
}

/// Appends the lines of one story of the index to `out`.
pub fn push_story_entry(out: &mut String, story: &Story, dialect: Dialect, now: &Instant)
    ensures
        final(out)@ == old(out)@ + story_entry(*story, dialect, *now),
        all_ascii(ascii_of(story.title@)),
{
    push_story_line(out, story, dialect);
    push_meta_line(out, story, dialect, now);
    push_comments_line(out, story, dialect);
}

/// What opens the Gemini index, up to its date of update.
pub const GEMINI_INDEX_HEAD: &'static str = "\n```\n .----------------.\n| .--------------. |\n| |   _____      | |\n| |  |_   _|     | |\n| |    | |       | |\n| |    | |   _   | |\n| |   _| |__/ |  | |\n| |  |________|  | |\n| |              | |\n| '--------------' |\n '----------------'\n```\n\nThis is an unofficial Lobste.rs mirror on gemini.\nYou can find the 25 hottest stories and their comments.\nSync happens every 10 minutes or so.\n\nLast updated ";

/// What opens the plain-text index, up to its date of update.
pub const PLAIN_INDEX_HEAD: &'static str = "\n .----------------.\n| .--------------. |\n| |   _____      | |\n| |  |_   _|     | |\n| |    | |       | |\n| |    | |   _   | |\n| |   _| |__/ |  | |\n| |  |________|  | |\n| |              | |\n| '--------------' |\n '----------------'\n\nThis is an unofficial Lobste.rs mirror in plain text.\nYou can find the 25 hottest stories and their comments.\nSync happens every 10 minutes or so.\n\nLast updated ";

/// What opens a Gemini thread document, up to the story's title.
pub const GEMINI_THREAD_HEAD: &'static str = "\n```\n .----------------.\n| .--------------. |\n| |   _____      | |\n| |  |_   _|     | |\n| |    | |       | |\n| |    | |   _   | |\n| |   _| |__/ |  | |\n| |  |________|  | |\n| |              | |\n| '--------------' |\n '----------------'\n```\n\nViewing comments for \"";

/// What opens a plain-text thread document, up to the story's title.
pub const PLAIN_THREAD_HEAD: &'static str = "\n .----------------.\n| .--------------. |\n| |   _____      | |\n| |  |_   _|     | |\n| |    | |       | |\n| |    | |   _   | |\n| |   _| |__/ |  | |\n| |  |________|  | |\n| |              | |\n| '--------------' |\n '----------------'\n\nViewing comments for \"";

/// What follows the story's title in a thread document.
pub const THREAD_HEAD_END: &'static str = "\"\n---\n\n";

impl Dialect {
    /// The banner that opens the index.
    pub open spec fn index_head(self) -> Seq<char> {
        match self {
            Dialect::Gemini => GEMINI_INDEX_HEAD@,
            Dialect::Plain => PLAIN_INDEX_HEAD@,
        }
    }

    /// The banner that opens a thread document.
    pub open spec fn thread_head(self) -> Seq<char> {
        match self {
            Dialect::Gemini => GEMINI_THREAD_HEAD@,
            Dialect::Plain => PLAIN_THREAD_HEAD@,
        }
    }
}

/// The opening of the index: the banner and the date of `now`.
pub open spec fn index_title(d: Dialect, now: Instant) -> Seq<char> {
    d.index_head() + date_text(now.seconds()) + "\n\n"@
}

/// The opening of the index: the banner and the date of `now`.
pub fn main_title(dialect: Dialect, now: &Instant) -> (r: String)
    ensures
        r@ == index_title(dialect, *now),
{
    let mut out = match dialect {
        Dialect::Gemini => String::from_str(GEMINI_INDEX_HEAD),
        Dialect::Plain => String::from_str(PLAIN_INDEX_HEAD),
    };
    let date = crate::time::format_instant(now);
    out.append(date.as_str());
    out.append("\n\n");
    out
}

/// The titles of `stories`, as they are placed in the index, are all ASCII.
pub open spec fn titles_ascii(stories: Seq<Story>) -> bool {
    forall|i: int| 0 <= i < stories.len() ==> all_ascii(ascii_of((#[trigger] stories[i]).title@))
}

/// The index document: the opening, then the lines of each story in order.
pub open spec fn index_text(stories: Seq<Story>, d: Dialect, now: Instant) -> Seq<char> {
    index_title(d, now) + story_entries(stories, d, now)
}

/// Renders the index document of `stories` in `dialect`, dated `now`.
pub fn render_index(stories: &Vec<Story>, dialect: Dialect, now: &Instant) -> (r: String)
    ensures
        r@ == index_text(stories@, dialect, *now),
        titles_ascii(stories@),
{
    let mut out = main_title(dialect, now);
    let mut i: usize = 0;
    while i < stories.len()
        invariant
            i <= stories.len(),
            out@ == index_title(dialect, *now) + story_entries(stories@.take(i as int), dialect, *now),
            forall|k: int| 0 <= k < i ==> all_ascii(ascii_of((#[trigger] stories@[k]).title@)),
        decreases stories.len() - i,
    {
        let ghost before = out@;
        assert(stories@.take(i as int + 1).drop_last() =~= stories@.take(i as int));
        push_story_entry(&mut out, &stories[i], dialect, now);
        assert(out@ =~= index_title(dialect, *now) + story_entries(stories@.take(i as int + 1), dialect, *now));
        i = i + 1;
    }
    assert(stories@.take(stories.len() as int) =~= stories@);
    out
}

/// Renders the Gemini index document of `stories`, dated `now`.
pub fn stories_to_geminimap(stories: &Vec<Story>, now: &Instant) -> (r: String)
    ensures
        r@ == index_text(stories@, Dialect::Gemini, *now),
        titles_ascii(stories@),
{
    render_index(stories, Dialect::Gemini, now)
}

/// Renders the plain-text index document of `stories`, dated `now`.
pub fn stories_to_finger(stories: &Vec<Story>, now: &Instant) -> (r: String)
    ensures
        r@ == index_text(stories@, Dialect::Plain, *now),
        titles_ascii(stories@),
{
    render_index(stories, Dialect::Plain, now)
}

/// The indentation of a comment at `depth`: one tab per level, up to
/// `MAX_INDENT` tabs.
pub open spec fn indent_of(depth: int) -> Seq<char> {
    Seq::new(if depth < MAX_INDENT { depth as nat } else { MAX_INDENT as nat }, |i: int| '\t')
}

/// The indentation of a comment at `depth`: one tab per level, up to
/// `MAX_INDENT` tabs.
pub fn indent_prefix(depth: u8) -> (r: String)
    ensures
        r@ == indent_of(depth as int),
{
    let level = if depth < MAX_INDENT { depth } else { MAX_INDENT };
    let mut out = String::new();
    let mut i: u8 = 0;
    while i < level
        invariant
            i <= level,
            level == (if depth < MAX_INDENT { depth } else { MAX_INDENT }),
            out@ =~= Seq::new(i as nat, |k: int| '\t'),
        decreases level - i,
    {
        proof {
            reveal_strlit("\t");
        }
        assert("\t"@ =~= seq!['\t']);
        out.append("\t");
        i = i + 1;
    }
    out
}

/// A text of a comment block, filled to `WRAP_WIDTH` columns and indented for
/// `depth`.
pub open spec fn laid_out(s: Seq<char>, depth: int) -> Seq<char> {
    indented(filled(s, WRAP_WIDTH as nat), indent_of(depth))
}

/// Fills `text` to `WRAP_WIDTH` columns and indents it for `depth`.
pub fn indent_comment(text: &str, depth: u8) -> (r: String)
    ensures
        r@ == laid_out(text@, depth as int),
{
    let filled_text = fill(text, WRAP_WIDTH);
    let prefix = indent_prefix(depth);
    indent(filled_text.as_str(), prefix.as_str())
}

/// The line that names a comment's author and score, before it is laid out.
pub open spec fn comment_meta(c: Comment, d: Dialect) -> Seq<char> {
    d.quote() + c.commenting_user.username@ + " commented ["@ + decimal(c.score as int) + "]:\n"@
}

/// The block of one comment: its laid-out metadata line, then its laid-out
/// cleaned body and a line break.
pub open spec fn comment_block(c: Comment, d: Dialect) -> Seq<char> {
    laid_out(comment_meta(c, d), c.depth as int) + laid_out(cleaned(c.comment@), c.depth as int)
        + "\n"@
}

/// The blocks of the given comments, in their order.
pub open spec fn comment_blocks(comments: Seq<Comment>, d: Dialect) -> Seq<char>
    decreases comments.len(),
{
    if comments.len() == 0 {
        Seq::empty()
    } else {
        comment_blocks(comments.drop_last(), d) + comment_block(comments.last(), d)
    }
}

/// Appends the block of one comment to `out`.
pub fn push_comment_block(out: &mut String, comment: &Comment, dialect: Dialect)
    ensures
        final(out)@ == old(out)@ + comment_block(*comment, dialect),
{
    let mut meta = String::from_str(dialect.quote_mark());
    meta.append(comment.commenting_user.username.as_str());
    meta.append(" commented [");
    push_decimal(&mut meta, comment.score as i64);
    meta.append("]:\n");
    let meta_block = indent_comment(meta.as_str(), comment.depth);
    let body = cleanup(comment.comment.as_str());
    let body_block = indent_comment(body.as_str(), comment.depth);
    out.append(meta_block.as_str());
    out.append(body_block.as_str());
    out.append("\n");
}

/// The opening of a story's thread document: the banner and the story's title.
pub open spec fn thread_title(s: Story, d: Dialect) -> Seq<char> {
    d.thread_head() + ascii_of(s.title@) + THREAD_HEAD_END@
}

/// The opening of a story's thread document: the banner and the story's title.
pub fn comment_title(story: &Story, dialect: Dialect) -> (r: String)
    ensures
        r@ == thread_title(*story, dialect),
        all_ascii(ascii_of(story.title@)),
{
    let mut out = match dialect {
        Dialect::Gemini => String::from_str(GEMINI_THREAD_HEAD),
        Dialect::Plain => String::from_str(PLAIN_THREAD_HEAD),
    };
    let title = transliterate(story.title.as_str());
    out.append(title.as_str());
    out.append(THREAD_HEAD_END);
    out
}

/// A story's thread document: the opening, then the block of each comment in
/// order.
pub open spec fn thread_text(comments: Seq<Comment>, s: Story, d: Dialect) -> Seq<char> {
    thread_title(s, d) + comment_blocks(comments, d)
}

/// Renders the thread document of `story` with `comments` in `dialect`.
pub fn render_thread(comments: &Vec<Comment>, story: &Story, dialect: Dialect) -> (r: String)
    ensures
        r@ == thread_text(comments@, *story, dialect),
        all_ascii(ascii_of(story.title@)),
{
    let mut out = comment_title(story, dialect);
    let mut i: usize = 0;
    while i < comments.len()
        invariant
            i <= comments.len(),
            out@ == thread_title(*story, dialect) + comment_blocks(comments@.take(i as int), dialect),
        decreases comments.len() - i,
    {
        assert(comments@.take(i as int + 1).drop_last() =~= comments@.take(i as int));
        push_comment_block(&mut out, &comments[i], dialect);
        assert(out@ =~= thread_title(*story, dialect) + comment_blocks(comments@.take(i as int + 1), dialect));
        i = i + 1;
    }
    assert(comments@.take(comments.len() as int) =~= comments@);
    out
}

/// Renders the Gemini thread document of `story` with `comments`.
pub fn build_comments_page(comments: &Vec<Comment>, story: &Story) -> (r: String)
    ensures
        r@ == thread_text(comments@, *story, Dialect::Gemini),
        all_ascii(ascii_of(story.title@)),
{
    render_thread(comments, story, Dialect::Gemini)
}

/// A story without a link points at its own permalink: in Gemini its line
/// links there, and in plain text its line carries no separate address.
pub proof fn lemma_self_post_uses_permalink(s: Story)
    requires
        s.url@.len() == 0,
    ensures
        link_target(s) == s.short_id_url@,
        story_line(s, Dialect::Gemini) == "=> "@ + s.short_id_url@ + " ["@ + decimal(s.score as int)
            + "] - "@ + ascii_of(s.title@) + "\n"@,
        story_line(s, Dialect::Plain) == "\n["@ + decimal(s.score as int) + "] - "@ + ascii_of(
            s.title@,
        ) + "\n"@,
{
    assert(story_line(s, Dialect::Plain) =~= "\n["@ + decimal(s.score as int) + "] - "@ + ascii_of(
        s.title@,
    ) + "\n"@);
}

/// A story's link that starts with `https` is emitted with `http` and the rest
/// unchanged; any other link is emitted as it is.
pub proof fn lemma_link_scheme(s: Story)
    requires
        s.url@.len() > 0,
    ensures
        starts_with(s.url@, secure_scheme()) ==> link_target(s) == plain_scheme() + s.url@.skip(5),
        !starts_with(s.url@, secure_scheme()) ==> link_target(s) == s.url@,
{
}

/// Comments at or below the deepest indentation level are all indented as
/// that level is.
pub proof fn lemma_deep_comments_share_indent(depth: int, text: Seq<char>)
    requires
        depth >= MAX_INDENT,
    ensures
        indent_of(depth) == indent_of(MAX_INDENT as int),
        laid_out(text, depth) == laid_out(text, MAX_INDENT as int),
{
    assert(indent_of(depth) =~= indent_of(MAX_INDENT as int));
}

/// A story whose timestamp does not parse is dated with the current time
/// handed to the renderer.
pub proof fn lemma_malformed_date_uses_now(s: Story, d: Dialect, now: Instant)
    requires
        instant_of(s.created_at@) is None,
    ensures
        meta_line(s, d, now) == d.quote() + "Submitted "@ + date_text(now.seconds()) + " by "@
            + s.submitter_user.username@ + " | "@ + joined(views_of(s.tags@), ", "@) + "\n"@,
{
}

/// Two stories that hold the same texts and numbers.
pub open spec fn same_story(a: Story, b: Story) -> bool {
    &&& a.title@ == b.title@
    &&& a.created_at@ == b.created_at@
    &&& a.score == b.score
    &&& a.comment_count == b.comment_count
    &&& a.short_id@ == b.short_id@
    &&& a.short_id_url@ == b.short_id_url@
    &&& a.url@ == b.url@
    &&& views_of(a.tags@) == views_of(b.tags@)
    &&& a.submitter_user.username@ == b.submitter_user.username@
}

/// Two comments that hold the same texts and numbers.
pub open spec fn same_comment(a: Comment, b: Comment) -> bool {
    &&& a.comment@ == b.comment@
    &&& a.created_at@ == b.created_at@
    &&& a.score == b.score
    &&& a.depth == b.depth
    &&& a.commenting_user.username@ == b.commenting_user.username@
}

proof fn lemma_entries_repeatable(a: Seq<Story>, b: Seq<Story>, d: Dialect, now: Instant)
    requires
        a.len() == b.len(),
        forall|i: int| 0 <= i < a.len() ==> same_story(#[trigger] a[i], b[i]),
    ensures
        story_entries(a, d, now) == story_entries(b, d, now),
    decreases a.len(),
{
    if a.len() > 0 {
        lemma_entries_repeatable(a.drop_last(), b.drop_last(), d, now);
        assert(same_story(a.last(), b.last()));
    }
}

proof fn lemma_blocks_repeatable(a: Seq<Comment>, b: Seq<Comment>, d: Dialect)
    requires
        a.len() == b.len(),
        forall|i: int| 0 <= i < a.len() ==> same_comment(#[trigger] a[i], b[i]),
    ensures
        comment_blocks(a, d) == comment_blocks(b, d),
    decreases a.len(),
{
    if a.len() > 0 {
        lemma_blocks_repeatable(a.drop_last(), b.drop_last(), d);
        assert(same_comment(a.last(), b.last()));
    }
}

/// Rendering is repeatable: lists of stories with the same contents give the
/// same index, byte for byte, in the same dialect at the same current time.
pub proof fn lemma_index_repeatable(a: Seq<Story>, b: Seq<Story>, d: Dialect, now: Instant)
    requires
        a.len() == b.len(),
        forall|i: int| 0 <= i < a.len() ==> same_story(#[trigger] a[i], b[i]),
    ensures
        index_text(a, d, now) == index_text(b, d, now),
{
    lemma_entries_repeatable(a, b, d, now);
}

/// Rendering is repeatable: the same story and comments with the same
/// contents give the same thread document, byte for byte.
pub proof fn lemma_thread_repeatable(
    a: Seq<Comment>,
    b: Seq<Comment>,
    s: Story,
    t: Story,
    d: Dialect,
)
    requires
        a.len() == b.len(),
        forall|i: int| 0 <= i < a.len() ==> same_comment(#[trigger] a[i], b[i]),
        same_story(s, t),
    ensures
        thread_text(a, s, d) == thread_text(b, t, d),
{
    lemma_blocks_repeatable(a, b, d);
}

} // verus!
