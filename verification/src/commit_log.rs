//! The commit log: one line for each commit, in the order received.
//!
//! A line is written as lightweight markup, the shortened identifier first,
//! then a colon and the message, and converted to the channel's HTML.

use crate::github::Commit;
use crate::markdown::{
    converted, escaped, lemma_escaped_concat, lemma_escaped_has_no_angle, markdown_html, md2html,
    paragraph_content,
};
use crate::text::{chars_of, join, joined, string_of, views};
use vstd::prelude::*;

verus! {

/// Where the page of a commit is found: its identifier follows.
pub const COMMIT_URL: &'static str = "https://github.com/bs-community/blessing-skin-server/commit/";

/// How the shortened identifier of a commit is marked up.
#[derive(Clone, Copy, Debug, PartialEq, Eq, Structural)]
pub enum IdMarkup {
    /// As a link to the page of the commit.
    Link,
    /// In strong emphasis.
    Emphasis,
}

/// How much of a commit message goes into its line.
#[derive(Clone, Copy, Debug, PartialEq, Eq, Structural)]
pub enum MessageStyle {
    /// The first line only.
    FirstLine,
    /// All of it, each line feed replaced by a space.
    Collapsed,
}

/// How a line of the log is laid out.
#[derive(Clone, Copy, Debug, PartialEq, Eq, Structural)]
pub struct LogFormat {
    /// The number of characters kept of an identifier.
    pub id_width: usize,
    pub id_markup: IdMarkup,
    pub message: MessageStyle,
}

impl LogFormat {
    /// Eight characters of the identifier as a link, then the first line
    /// of the message.
    pub open spec fn standard() -> LogFormat {
        LogFormat { id_width: 8, id_markup: IdMarkup::Link, message: MessageStyle::FirstLine }
    }
}

impl Default for LogFormat {
    fn default() -> (format: LogFormat)
        ensures
            format == LogFormat::standard(),
    {
        LogFormat { id_width: 8, id_markup: IdMarkup::Link, message: MessageStyle::FirstLine }
    }
}

/// The first `width` characters of `sha`; all of it where it has no more.
pub open spec fn short_id(sha: Seq<char>, width: nat) -> Seq<char> {
    if sha.len() <= width {
        sha
    } else {
        sha.take(width as int)
    }
}

/// The number of characters before the first line feed of `s`.
pub open spec fn first_line_len(s: Seq<char>) -> nat
    decreases s.len(),
{
    if s.len() == 0 || s[0] == '\n' {
        0
    } else {
        1 + first_line_len(s.drop_first())
    }
}

/// The first line of `message`, without the line feed that ends it and
/// without a carriage return in front of that line feed.
pub open spec fn first_line(message: Seq<char>) -> Seq<char> {
    let n = first_line_len(message);
    let line = message.take(n as int);
    if 0 < n < message.len() && line.last() == '\r' {
        line.drop_last()
    } else {
        line
    }
}

/// `message` with each line feed replaced by a space.
pub open spec fn collapsed(message: Seq<char>) -> Seq<char> {
    message.map_values(
        |c: char|
            if c == '\n' {
                ' '
            } else {
                c
            },
    )
}

/// The part of `message` that goes into the log.
pub open spec fn message_text(message: Seq<char>, style: MessageStyle) -> Seq<char> {
    match style {
        MessageStyle::FirstLine => first_line(message),
        MessageStyle::Collapsed => collapsed(message),
    }
}

/// The shortened identifier in its markup.
pub open spec fn id_label(sha: Seq<char>, format: LogFormat) -> Seq<char> {
    let short = short_id(sha, format.id_width as nat);
    match format.id_markup {
        IdMarkup::Link => "["@ + short + "]("@ + COMMIT_URL@ + sha + ")"@,
        IdMarkup::Emphasis => "**"@ + short + "**"@,
    }
}

/// The line of one commit as lightweight markup.
pub open spec fn entry_markup(sha: Seq<char>, message: Seq<char>, format: LogFormat) -> Seq<
    char,
> {
    id_label(sha, format) + ": "@ + message_text(message, format.message)
}

/// The line of one commit as sent to the channel.
pub open spec fn entry(commit: Commit, format: LogFormat) -> Seq<char> {
    converted(entry_markup(commit.sha@, commit.commit.message@, format))
}

/// The whole log: the lines of the commits in order, one line feed between
/// each two.
pub open spec fn log_text(commits: Seq<Commit>, format: LogFormat) -> Seq<char> {
    joined(commits.map_values(|c: Commit| entry(c, format)), "\n"@)
}

/// The log of one commit is its line, and each further commit adds one
/// line feed and its line: the lines stand in the order of the commits,
/// with a single line feed between each two.
pub proof fn lemma_log_grows_by_lines(commits: Seq<Commit>, next: Commit, format: LogFormat)
    ensures
        log_text(seq![next], format) == entry(next, format),
        commits.len() > 0 ==> log_text(commits.push(next), format) == log_text(commits, format)
            + "\n"@ + entry(next, format),
{
    let lines = commits.map_values(|c: Commit| entry(c, format));
    let more = commits.push(next).map_values(|c: Commit| entry(c, format));
    assert(more.drop_last() =~= lines);
    assert(more.last() == entry(next, format));
    assert(seq![next].map_values(|c: Commit| entry(c, format))[0] == entry(next, format));
}

/// In the standard layout the link shows the first eight characters of the
/// identifier, or all of an identifier that has no more, and leads to the
/// page of the whole identifier.
pub proof fn lemma_standard_label_shows_eight(sha: Seq<char>)
    ensures
        short_id(sha, 8).is_prefix_of(sha),
        short_id(sha, 8).len() == if sha.len() <= 8 {
            sha.len()
        } else {
            8
        },
        id_label(sha, LogFormat::standard()) == "["@ + short_id(sha, 8) + "]("@ + COMMIT_URL@ + sha
            + ")"@,
{
    assert(short_id(sha, 8) =~= sha.subrange(0, short_id(sha, 8).len() as int));
}

/// What is handed to the converter for one commit holds no angle bracket,
/// and it ends with a colon, a space and the shown part of the message, the
/// angle brackets of that part escaped. The line of the commit is what the
/// converter renders for it, without the paragraph container.
pub proof fn lemma_converter_gets_escaped_entry(
    sha: Seq<char>,
    message: Seq<char>,
    format: LogFormat,
)
    ensures
        !escaped(entry_markup(sha, message, format)).contains('<'),
        !escaped(entry_markup(sha, message, format)).contains('>'),
        (": "@ + escaped(message_text(message, format.message))).is_suffix_of(
            escaped(entry_markup(sha, message, format)),
        ),
        converted(entry_markup(sha, message, format)) == paragraph_content(
            markdown_html(escaped(entry_markup(sha, message, format))),
        ),
{
    let label = id_label(sha, format);
    let shown = message_text(message, format.message);
    let whole = escaped(entry_markup(sha, message, format));
    let tail = ": "@ + escaped(shown);
    lemma_escaped_has_no_angle(entry_markup(sha, message, format));
    lemma_escaped_concat(label + ": "@, shown);
    lemma_escaped_concat(label, ": "@);
    assert(escaped(": "@) =~= ": "@) by {
        reveal_strlit(": ");
        reveal_strlit("&lt;");
        reveal_strlit("&gt;");
        let colon = ": "@;
        assert(colon.drop_last() =~= seq![':']);
        assert(colon.drop_last().drop_last() =~= Seq::<char>::empty());
        reveal_with_fuel(escaped, 3);
    }
    assert(whole =~= escaped(label) + tail);
    assert(whole.subrange(whole.len() - tail.len(), whole.len() as int) =~= tail);
}

/// No line feed stands in the first line.
proof fn lemma_first_line_len_stops_early(s: Seq<char>, k: int)
    requires
        0 <= k < first_line_len(s),
    ensures
        first_line_len(s) <= s.len(),
        s[k] != '\n',
    decreases s.len(),
{
    if s.len() > 0 && s[0] != '\n' {
        if k > 0 {
            lemma_first_line_len_stops_early(s.drop_first(), k - 1);
        } else if first_line_len(s.drop_first()) > 0 {
            lemma_first_line_len_stops_early(s.drop_first(), 0);
        }
    }
}

/// What the log shows of a message holds no line feed, whichever style is
/// chosen: the line of a commit is not broken by its message.
pub proof fn lemma_shown_message_is_one_line(message: Seq<char>, style: MessageStyle)
    ensures
        !message_text(message, style).contains('\n'),
{
    let shown = message_text(message, style);
    assert forall|k: int| 0 <= k < shown.len() implies shown[k] != '\n' by {
        match style {
            MessageStyle::FirstLine => {
                if first_line_len(message) > 0 {
                    lemma_first_line_len_stops_early(message, 0);
                    lemma_first_line_len_stops_early(message, k);
                }
            },
            MessageStyle::Collapsed => {},
        }
    }
}

/// Where no line feed stands before `i`, and `i` is the end of `s` or the
/// place of a line feed, the first line has `i` characters.
proof fn lemma_first_line_len(s: Seq<char>, i: int)
    requires
        0 <= i <= s.len(),
        forall|k: int| 0 <= k < i ==> s[k] != '\n',
        i == s.len() || s[i] == '\n',
    ensures
        first_line_len(s) == i,
    decreases i,
{
    if i > 0 {
        lemma_first_line_len(s.drop_first(), i - 1);
    }
}

/// Shortens an identifier to its first `width` characters.
pub fn shorten(sha: &str, width: usize) -> (short: String)
    ensures
        short@ == short_id(sha@, width as nat),
{
    let v = chars_of(sha);
    if v.len() <= width {
        string_of(&v, 0, v.len())
    } else {
        string_of(&v, 0, width)
    }
}

/// Takes the first line of a message.
pub fn take_first_line(message: &str) -> (line: String)
    ensures
        line@ == first_line(message@),
{
    let v = chars_of(message);
    let mut i: usize = 0;
    while i < v.len() && v[i] != '\n'
        invariant
            i <= v.len(),
            forall|k: int| 0 <= k < i ==> v@[k] != '\n',
        decreases v.len() - i,
    {
        i += 1;
    }
    proof {
        lemma_first_line_len(v@, i as int);
    }
    let end = if 0 < i && i < v.len() && v[i - 1] == '\r' {
        i - 1
    } else {
        i
    };
    string_of(&v, 0, end)
}

/// Replaces each line feed of a message by a space.
pub fn collapse(message: &str) -> (line: String)
    ensures
        line@ == collapsed(message@),
{
    let mut line = String::new();
    for c in it: message.chars()
        invariant
            it.seq() == message@,
            line@ == collapsed(message@.take(it.index())),
    {
        if c == '\n' {
            line.push(' ');
        } else {
            line.push(c);
        }
    }
    line
}

/// What the log says of one commit: its shortened identifier and the part
/// of its message that the log shows.
#[derive(Debug)]
pub struct CommitRecord {
    pub short_id: String,
    pub first_line: String,
}

/// Takes from a commit what the log says of it.
pub fn summarize(sha: &str, message: &str, format: &LogFormat) -> (record: CommitRecord)
    ensures
        record.short_id@ == short_id(sha@, format.id_width as nat),
        record.first_line@ == message_text(message@, format.message),
{
    let short_id = shorten(sha, format.id_width);
    let first_line = match format.message {
        MessageStyle::FirstLine => take_first_line(message),
        MessageStyle::Collapsed => collapse(message),
    };
    CommitRecord { short_id, first_line }
}

/// Writes the line of one commit as lightweight markup.
pub fn write_entry_markup(sha: &str, message: &str, format: &LogFormat) -> (line: String)
    ensures
        line@ == entry_markup(sha@, message@, *format),
{
    let record = summarize(sha, message, format);
    let short = record.short_id;
    let mut line = String::new();
    match format.id_markup {
        IdMarkup::Link => {
            line.append("[");
            line.append(short.as_str());
            line.append("](");
            line.append(COMMIT_URL);
            line.append(sha);
            line.append(")");
        },
        IdMarkup::Emphasis => {
            line.append("**");
            line.append(short.as_str());
            line.append("**");
        },
    }
    line.append(": ");
    line.append(record.first_line.as_str());
    line
}

/// Writes the log of `log` in the given layout.
pub fn render_log(log: &[Commit], format: &LogFormat) -> (out: String)
    ensures
        out@ == log_text(log@, *format),
{
    let mut lines: Vec<String> = Vec::new();
    let mut i: usize = 0;
    let ghost all = log@.map_values(|c: Commit| entry(c, *format));
    while i < log.len()
        invariant
            i <= log.len(),
            all == log@.map_values(|c: Commit| entry(c, *format)),
            views(lines@) == all.take(i as int),
        decreases log.len() - i,
    {
        let commit = &log[i];
        let markup = write_entry_markup(
            commit.sha.as_str(),
            commit.commit.message.as_str(),
            format,
        );
        let line = md2html(markup);
        lines.push(line);
        assert(all.take(i + 1) =~= all.take(i as int).push(all[i as int]));
        i += 1;
    }
    assert(all.take(log@.len() as int) =~= all);
    join(&lines, "\n")
}

/// Writes the log of `log` in the standard layout.
pub fn format_log(log: &[Commit]) -> (out: String)
    ensures
        out@ == log_text(log@, LogFormat::standard()),
{
    let format = LogFormat { id_width: 8, id_markup: IdMarkup::Link, message: MessageStyle::FirstLine };
    render_log(log, &format)
}

} // verus!
