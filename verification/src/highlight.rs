//! The parts of a file preview: lines, the lookups that select a syntax,
//! and the styled line made of a highlighter's tokens.

use vstd::prelude::*;
use crate::frame::Color;
use crate::styled::{plain_line, Line, Span, SpanView, Style};
use crate::syntax::{
    syntax_by_extension, syntax_by_first_line, syntax_by_name, syntax_for_extension,
    syntax_for_first_line, syntax_for_name, Syntax, SyntaxView, Syntaxes, Token, TokenView,
};
use crate::text::{chars_of, ends_with, has_suffix};

verus! {

/// The length of the first line of `text`, its line feed included.
pub open spec fn first_line_len(text: Seq<char>) -> int
    decreases text.len(),
{
    if text.len() == 0 {
        0
    } else if text[0] == '\n' {
        1
    } else {
        1 + first_line_len(text.drop_first())
    }
}

/// The first line of a text that is not empty is not empty either, and no
/// longer than the text.
pub proof fn lemma_first_line_len_bounds(text: Seq<char>)
    ensures
        0 <= first_line_len(text) <= text.len(),
        text.len() > 0 ==> first_line_len(text) > 0,
    decreases text.len(),
{
    if text.len() > 0 && text[0] != '\n' {
        lemma_first_line_len_bounds(text.drop_first());
    }
}

/// The lines of `text`, each with its line feed where it has one. The lines
/// put one after another give `text` back.
pub open spec fn split_lines(text: Seq<char>) -> Seq<Seq<char>>
    decreases text.len(),
{
    if text.len() == 0 {
        Seq::empty()
    } else {
        proof {
            lemma_first_line_len_bounds(text);
        }
        seq![text.take(first_line_len(text))] + split_lines(text.skip(first_line_len(text)))
    }
}

/// `syntect::util::LinesWithEndings` run to its end, each line copied out:
/// the input is cut after every line feed, and what follows the last line
/// feed, if anything, is the last line.
#[verifier::external_body]
pub(crate) fn lines_with_endings(content: &str) -> (lines: Vec<String>)
    ensures
        lines.deep_view() == split_lines(content@),
{
    syntect::util::LinesWithEndings::from(content).map(|line| line.to_string()).collect()
}

/// A line without its line ending: a final line feed is dropped, and with it
/// the carriage return before it, if there is one.
pub open spec fn without_ending(line: Seq<char>) -> Seq<char> {
    if line.len() >= 2 && line[line.len() - 2] == '\r' && line[line.len() - 1] == '\n' {
        line.take(line.len() - 2)
    } else if line.len() >= 1 && line[line.len() - 1] == '\n' {
        line.take(line.len() - 1)
    } else {
        line
    }
}

/// A copy of `line` without its line ending.
pub fn strip_ending(line: &str) -> (stripped: String)
    ensures
        stripped@ == without_ending(line@),
{
    let chars = chars_of(line);
    let n = chars.len();
    let keep = if n >= 2 && chars[n - 2] == '\r' && chars[n - 1] == '\n' {
        n - 2
    } else if n >= 1 && chars[n - 1] == '\n' {
        n - 1
    } else {
        n
    };
    let stripped = line.substring_char(0, keep).to_owned();
    assert(line@.subrange(0, keep as int) =~= line@.take(keep as int));
    assert(line@.take(n as int) =~= line@);
    stripped
}

/// The span that shows a token: the token's text in the token's colour, on
/// the terminal's own background.
pub open spec fn span_of(token: TokenView) -> SpanView {
    SpanView {
        content: token.text,
        style: Style {
            fg: Some(Color::Rgb(token.red, token.green, token.blue)),
            bg: Some(Color::Reset),
        },
    }
}

/// The styled line for a line of a file, given what the highlighter made of
/// it: its tokens as spans, or, where it failed, the line as it is, without
/// its ending and in no style.
pub open spec fn styled(line: Seq<char>, tokens: Option<Seq<TokenView>>) -> Seq<SpanView> {
    match tokens {
        Some(found) => Seq::new(found.len(), |i: int| span_of(found[i])),
        None => plain_line(without_ending(line)),
    }
}

/// Builds the styled line for `line`, given what the highlighter made of it.
pub fn styled_line(line: &str, tokens: Option<Vec<Token>>) -> (shown: Line)
    ensures
        shown@ == styled(line@, tokens.deep_view()),
{
    match tokens {
        Some(found) => {
            let mut spans: Vec<Span> = Vec::new();
            let mut i: usize = 0;
            while i < found.len()
                invariant
                    i <= found.len(),
                    spans.len() == i,
                    forall|j: int| 0 <= j < i ==> spans[j]@ == span_of(found[j]@),
                decreases found.len() - i,
            {
                let token = &found[i];
                spans.push(
                    Span {
                        content: token.text.clone(),
                        style: Style {
                            fg: Some(Color::Rgb(token.red, token.green, token.blue)),
                            bg: Some(Color::Reset),
                        },
                    },
                );
                i += 1;
            }
            assert(spans.deep_view() =~= styled(line@, Some(found.deep_view())));
            Line { spans }
        },
        None => Line::raw(strip_ending(line)),
    }
}

/// The position of the last dot in `name`, or -1 where it has none.
pub open spec fn last_dot(name: Seq<char>) -> int
    decreases name.len(),
{
    if name.len() == 0 {
        -1
    } else if name.last() == '.' {
        name.len() - 1
    } else {
        last_dot(name.drop_last())
    }
}

/// The extension of a file name: what follows its last dot, unless the name
/// has no dot or only the one it begins with.
pub open spec fn extension_of(name: Seq<char>) -> Option<Seq<char>> {
    if last_dot(name) <= 0 {
        None
    } else {
        Some(name.skip(last_dot(name) + 1))
    }
}

/// The extension of a file name, if it has one.
pub fn extension(name: &str) -> (ext: Option<String>)
    ensures
        ext.deep_view() == extension_of(name@),
{
    let chars = chars_of(name);
    let mut end: usize = chars.len();
    assert(name@.take(name@.len() as int) =~= name@);
    while end > 0 && chars[end - 1] != '.'
        invariant
            end <= chars.len(),
            chars@ == name@,
            last_dot(name@) == last_dot(name@.take(end as int)),
        decreases end,
    {
        proof {
            assert(name@.take(end as int).drop_last() =~= name@.take(end as int - 1));
        }
        end -= 1;
    }
    if end <= 1 {
        None
    } else {
        let ext = name.substring_char(end, chars.len()).to_owned();
        assert(name@.subrange(end as int, name@.len() as int) =~= name@.skip(end as int));
        Some(ext)
    }
}

/// One way to look a syntax up.
#[derive(Debug, PartialEq, Eq)]
pub enum SyntaxQuery {
    /// By a file extension that the syntax lists.
    Extension(String),
    /// By a pattern that the syntax has for a file's first line.
    FirstLine(String),
    /// By the syntax's own name.
    Name(String),
}

/// The mathematical content of a [`SyntaxQuery`].
pub enum SyntaxQueryView {
    Extension(Seq<char>),
    FirstLine(Seq<char>),
    Name(Seq<char>),
}

impl View for SyntaxQuery {
    type V = SyntaxQueryView;

    open spec fn view(&self) -> SyntaxQueryView {
        match self {
            SyntaxQuery::Extension(text) => SyntaxQueryView::Extension(text@),
            SyntaxQuery::FirstLine(text) => SyntaxQueryView::FirstLine(text@),
            SyntaxQuery::Name(text) => SyntaxQueryView::Name(text@),
        }
    }
}

impl Clone for SyntaxQuery {
    fn clone(&self) -> (query: Self)
        ensures
            query@ == self@,
    {
        match self {
            SyntaxQuery::Extension(text) => SyntaxQuery::Extension(text.clone()),
            SyntaxQuery::FirstLine(text) => SyntaxQuery::FirstLine(text.clone()),
            SyntaxQuery::Name(text) => SyntaxQuery::Name(text.clone()),
        }
    }
}

impl DeepView for SyntaxQuery {
    type V = SyntaxQueryView;

    open spec fn deep_view(&self) -> SyntaxQueryView {
        self@
    }
}

/// The name of the syntax that highlights nothing, the last resort.
pub const PLAIN_TEXT: &'static str = "Plain Text";

/// The ending of the paths that are taken for Markdown whatever else they hold.
pub const MARKDOWN_SUFFIX: &'static str = ".md";

/// The extension under which the Markdown syntax is looked up.
pub const MARKDOWN_EXTENSION: &'static str = "md";

/// The extension to look a file up by: the one of its name, or the empty
/// text where the name has none.
pub open spec fn lookup_extension(file_name: Option<Seq<char>>) -> Seq<char> {
    match file_name {
        Some(name) => match extension_of(name) {
            Some(ext) => ext,
            None => Seq::empty(),
        },
        None => Seq::empty(),
    }
}

/// The lookups to try for a file, in order, the first that finds a syntax
/// winning. A path that ends in `.md` is looked up as Markdown only; any
/// other by its whole name as an extension, then by its extension, then by
/// its first line. The plain text syntax is the last resort of both.
pub open spec fn queries_for(
    path: Seq<char>,
    file_name: Option<Seq<char>>,
    first_line: Seq<char>,
) -> Seq<SyntaxQueryView> {
    if has_suffix(path, MARKDOWN_SUFFIX@) {
        seq![
            SyntaxQueryView::Extension(MARKDOWN_EXTENSION@),
            SyntaxQueryView::Name(PLAIN_TEXT@),
        ]
    } else {
        seq![
            SyntaxQueryView::Extension(crate::files::shown_name(file_name)),
            SyntaxQueryView::Extension(lookup_extension(file_name)),
            SyntaxQueryView::FirstLine(first_line),
            SyntaxQueryView::Name(PLAIN_TEXT@),
        ]
    }
}

/// Lists the lookups to try for the file at `file_path`, whose final path
/// component is `file_name` and whose content begins with `first_line`.
pub fn syntax_queries(file_path: &str, file_name: Option<String>, first_line: &str) -> (queries:
    Vec<SyntaxQuery>)
    ensures
        queries.deep_view() == queries_for(file_path@, file_name.deep_view(), first_line@),
{
    let mut queries: Vec<SyntaxQuery> = Vec::new();
    if ends_with(file_path, MARKDOWN_SUFFIX) {
        queries.push(SyntaxQuery::Extension(MARKDOWN_EXTENSION.to_owned()));
        queries.push(SyntaxQuery::Name(PLAIN_TEXT.to_owned()));
    } else {
        let ext = match &file_name {
            Some(name) => match extension(name.as_str()) {
                Some(ext) => ext,
                None => String::new(),
            },
            None => String::new(),
        };
        queries.push(SyntaxQuery::Extension(crate::files::name_or_empty(file_name)));
        queries.push(SyntaxQuery::Extension(ext));
        queries.push(SyntaxQuery::FirstLine(first_line.to_owned()));
        queries.push(SyntaxQuery::Name(PLAIN_TEXT.to_owned()));
    }
    assert(queries.deep_view() =~= queries_for(file_path@, file_name.deep_view(), first_line@));
    queries
}

/// The name of the syntax that the shipped set returns for a lookup, if it
/// returns one.
pub open spec fn answer(query: SyntaxQueryView) -> Option<Seq<char>> {
    match query {
        SyntaxQueryView::Extension(extension) => syntax_for_extension(extension),
        SyntaxQueryView::FirstLine(line) => syntax_for_first_line(line),
        SyntaxQueryView::Name(name) => syntax_for_name(name),
    }
}

/// The syntax that the first of the lookups `queries` finds, in their
/// order: its name, and the lookup that found it. `None` where none of them
/// finds one.
pub open spec fn first_hit(queries: Seq<SyntaxQueryView>) -> Option<SyntaxView>
    decreases queries.len(),
{
    if queries.len() == 0 {
        None
    } else {
        match answer(queries.first()) {
            Some(name) => Some(SyntaxView { name, found_by: queries.first() }),
            None => first_hit(queries.drop_first()),
        }
    }
}

/// Tries the lookups in order and returns the first syntax found: a later
/// lookup is tried only where every earlier one found nothing.
pub(crate) fn find_syntax<'a>(syntaxes: &'a Syntaxes, queries: &Vec<SyntaxQuery>) -> (found: Option<
    Syntax<'a>,
>)
    ensures
        found.deep_view() == first_hit(queries.deep_view()),
{
    let mut i: usize = 0;
    assert(queries.deep_view().skip(0) =~= queries.deep_view());
    while i < queries.len()
        invariant
            i <= queries.len(),
            first_hit(queries.deep_view()) == first_hit(queries.deep_view().skip(i as int)),
        decreases queries.len() - i,
    {
        let found = match &queries[i] {
            SyntaxQuery::Extension(ext) => syntax_by_extension(syntaxes, ext.as_str()),
            SyntaxQuery::FirstLine(line) => syntax_by_first_line(syntaxes, line.as_str()),
            SyntaxQuery::Name(name) => syntax_by_name(syntaxes, name.as_str()),
        };
        proof {
            let rest = queries.deep_view().skip(i as int);
            assert(rest.first() == queries[i as int]@);
            assert(rest.drop_first() =~= queries.deep_view().skip(i as int + 1));
        }
        if found.is_some() {
            return found;
        }
        i += 1;
    }
    None
}

} // verus!
