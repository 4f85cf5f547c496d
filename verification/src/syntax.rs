//! The `syntect` crate's types and calls. The contracts in this file are
//! taken on trust: they say what that crate's source shows, and nothing here
//! is proved of them.
//!
//! The crate's values are handed out only inside structs whose fields are
//! private to this file. A set of syntaxes or of themes is always the one
//! that ships with the crate; a syntax always travels with the set it was
//! found in; a highlighter always works with the set of its syntax.

use vstd::prelude::*;
use crate::highlight::{SyntaxQuery, SyntaxQueryView};

verus! {

/// A set of syntax definitions of the `syntect` crate.
#[verifier::external_type_specification]
#[verifier::external_body]
pub struct ExSyntaxSet(syntect::parsing::SyntaxSet);

/// One syntax definition inside a set.
#[verifier::external_type_specification]
#[verifier::external_body]
pub struct ExSyntaxReference(syntect::parsing::SyntaxReference);

/// A set of colour themes of the `syntect` crate.
#[verifier::external_type_specification]
#[verifier::external_body]
pub struct ExThemeSet(syntect::highlighting::ThemeSet);

/// One colour theme.
#[verifier::external_type_specification]
#[verifier::external_body]
pub struct ExTheme(syntect::highlighting::Theme);

/// A highlighter that is fed a file line by line and carries the parse
/// state from one line to the next.
#[verifier::external_type_specification]
#[verifier::external_body]
pub struct ExHighlightLines<'a>(syntect::easy::HighlightLines<'a>);

/// A stretch of a highlighted line with the colour to draw it in.
#[derive(Debug, PartialEq, Eq)]
pub struct Token {
    pub text: String,
    pub red: u8,
    pub green: u8,
    pub blue: u8,
}

/// The mathematical content of a [`Token`].
pub struct TokenView {
    pub text: Seq<char>,
    pub red: u8,
    pub green: u8,
    pub blue: u8,
}

impl View for Token {
    type V = TokenView;

    open spec fn view(&self) -> TokenView {
        TokenView { text: self.text@, red: self.red, green: self.green, blue: self.blue }
    }
}

impl DeepView for Token {
    type V = TokenView;

    open spec fn deep_view(&self) -> TokenView {
        self@
    }
}

/// The characters of a run of tokens, one token after another.
pub open spec fn tokens_text(tokens: Seq<TokenView>) -> Seq<char>
    decreases tokens.len(),
{
    if tokens.len() == 0 {
        Seq::empty()
    } else {
        tokens_text(tokens.drop_last()) + tokens.last().text
    }
}

/// The syntax definitions that ship with the `syntect` crate.
pub struct Syntaxes {
    set: syntect::parsing::SyntaxSet,
}

/// The colour themes that ship with the `syntect` crate.
pub struct Themes {
    set: syntect::highlighting::ThemeSet,
}

/// A syntax of the shipped set, as a lookup found it.
pub struct Syntax<'a> {
    set: &'a syntect::parsing::SyntaxSet,
    reference: &'a syntect::parsing::SyntaxReference,
    name: String,
    found_by: SyntaxQuery,
}

/// What is known of a [`Syntax`]: its name, and the lookup that found it.
pub struct SyntaxView {
    pub name: Seq<char>,
    pub found_by: SyntaxQueryView,
}

impl<'a> View for Syntax<'a> {
    type V = SyntaxView;

    closed spec fn view(&self) -> SyntaxView {
        SyntaxView { name: self.name@, found_by: self.found_by@ }
    }
}

impl<'a> DeepView for Syntax<'a> {
    type V = SyntaxView;

    open spec fn deep_view(&self) -> SyntaxView {
        self@
    }
}

impl<'a> Syntax<'a> {
    /// The syntax's name.
    pub fn name(&self) -> (name: String)
        ensures
            name@ == self@.name,
    {
        self.name.clone()
    }
}

/// A theme of the shipped set, with the name it was found under.
pub struct ChosenTheme<'a> {
    theme: &'a syntect::highlighting::Theme,
    name: String,
}

impl<'a> View for ChosenTheme<'a> {
    type V = Seq<char>;

    closed spec fn view(&self) -> Seq<char> {
        self.name@
    }
}

/// A highlighter for one file: it is fed the file's lines in order and
/// carries the parse state from one line to the next.
pub struct Highlighter<'a> {
    set: &'a syntect::parsing::SyntaxSet,
    lines: syntect::easy::HighlightLines<'a>,
    found_by: SyntaxQuery,
    theme: String,
    fed: Vec<String>,
}

/// What is known of a [`Highlighter`]: the lookup that found its syntax, the
/// name of its theme, and the lines it has been fed so far.
pub struct HighlighterView {
    pub found_by: SyntaxQueryView,
    pub theme: Seq<char>,
    pub fed: Seq<Seq<char>>,
}

impl<'a> View for Highlighter<'a> {
    type V = HighlighterView;

    closed spec fn view(&self) -> HighlighterView {
        HighlighterView {
            found_by: self.found_by@,
            theme: self.theme@,
            fed: self.fed.deep_view(),
        }
    }
}

/// The name of the syntax that the shipped set returns for a file
/// extension, if it returns one.
pub uninterp spec fn syntax_for_extension(extension: Seq<char>) -> Option<Seq<char>>;

/// The name of the syntax that the shipped set returns for a file's first
/// line, if it returns one.
pub uninterp spec fn syntax_for_first_line(line: Seq<char>) -> Option<Seq<char>>;

/// The name of the syntax that the shipped set returns for a syntax name,
/// if it returns one.
pub uninterp spec fn syntax_for_name(name: Seq<char>) -> Option<Seq<char>>;

/// Whether the shipped themes hold one of this name.
pub uninterp spec fn theme_is_shipped(name: Seq<char>) -> bool;

/// What a highlighter hands back for `line`, when its syntax is the one that
/// the shipped set returns for the lookup `found_by`, its theme the shipped
/// one named `theme`, and the lines `fed` are what it was fed before, in
/// that order: the line's tokens, or `None` where it reports an error.
pub uninterp spec fn highlighted(
    found_by: SyntaxQueryView,
    theme: Seq<char>,
    fed: Seq<Seq<char>>,
    line: Seq<char>,
) -> Option<Seq<TokenView>>;

/// `syntect::parsing::SyntaxSet::load_defaults_newlines`: the syntax
/// definitions that ship with the crate, for lines that keep their line
/// ending. It reads them from data inside the crate, the same on every call.
#[verifier::external_body]
pub(crate) fn load_syntaxes() -> Syntaxes {
    Syntaxes { set: syntect::parsing::SyntaxSet::load_defaults_newlines() }
}

/// `syntect::highlighting::ThemeSet::load_defaults`: the themes that ship
/// with the crate. It reads them from data inside the crate, the same on
/// every call.
#[verifier::external_body]
pub(crate) fn load_themes() -> Themes {
    Themes { set: syntect::highlighting::ThemeSet::load_defaults() }
}

/// The lookup of `name` in the theme set's public map `themes`, the theme
/// handed out with a copy of the name asked for.
#[verifier::external_body]
pub(crate) fn theme_named<'a>(themes: &'a Themes, name: &str) -> (found: Option<ChosenTheme<'a>>)
    ensures
        found is Some <==> theme_is_shipped(name@),
        found matches Some(theme) ==> theme@ == name@,
{
    themes.set.themes.get(name).map(|theme| ChosenTheme { theme, name: name.to_string() })
}

/// `SyntaxSet::find_syntax_by_extension` on the shipped set, the syntax
/// handed out with its set, a copy of its public field `name` and a record
/// of the lookup. Nothing is claimed of which extensions the set knows.
#[verifier::external_body]
pub(crate) fn syntax_by_extension<'a>(syntaxes: &'a Syntaxes, extension: &str) -> (found: Option<
    Syntax<'a>,
>)
    ensures
        found is Some <==> syntax_for_extension(extension@) is Some,
        found matches Some(hit) ==> hit@ == (SyntaxView {
            name: syntax_for_extension(extension@)->0,
            found_by: SyntaxQueryView::Extension(extension@),
        }),
{
    let by = SyntaxQuery::Extension(extension.to_string());
    let set = &syntaxes.set;
    let found = set.find_syntax_by_extension(extension);
    found.map(|reference| Syntax { set, reference, name: reference.name.clone(), found_by: by })
}

/// `SyntaxSet::find_syntax_by_first_line` on the shipped set, the syntax
/// handed out with its set, a copy of its public field `name` and a record
/// of the lookup. Nothing is claimed of which first lines the set recognises.
#[verifier::external_body]
pub(crate) fn syntax_by_first_line<'a>(syntaxes: &'a Syntaxes, line: &str) -> (found: Option<
    Syntax<'a>,
>)
    ensures
        found is Some <==> syntax_for_first_line(line@) is Some,
        found matches Some(hit) ==> hit@ == (SyntaxView {
            name: syntax_for_first_line(line@)->0,
            found_by: SyntaxQueryView::FirstLine(line@),
        }),
{
    let by = SyntaxQuery::FirstLine(line.to_string());
    let set = &syntaxes.set;
    let found = set.find_syntax_by_first_line(line);
    found.map(|reference| Syntax { set, reference, name: reference.name.clone(), found_by: by })
}

/// `SyntaxSet::find_syntax_by_name` on the shipped set, the syntax handed
/// out with its set, a copy of its public field `name` and a record of the
/// lookup. Nothing is claimed of which names the set knows.
#[verifier::external_body]
pub(crate) fn syntax_by_name<'a>(syntaxes: &'a Syntaxes, name: &str) -> (found: Option<Syntax<'a>>)
    ensures
        found is Some <==> syntax_for_name(name@) is Some,
        found matches Some(hit) ==> hit@ == (SyntaxView {
            name: syntax_for_name(name@)->0,
            found_by: SyntaxQueryView::Name(name@),
        }),
{
    let by = SyntaxQuery::Name(name.to_string());
    let set = &syntaxes.set;
    let found = set.find_syntax_by_name(name);
    found.map(|reference| Syntax { set, reference, name: reference.name.clone(), found_by: by })
}

/// `syntect::easy::HighlightLines::new`: a highlighter at the start of a
/// file of the given syntax, kept together with the set that the syntax was
/// found in. It has been fed nothing yet.
#[verifier::external_body]
pub(crate) fn new_highlighter<'a>(syntax: &Syntax<'a>, theme: &ChosenTheme<'a>) -> (highlighter:
    Highlighter<'a>)
    ensures
        highlighter@ == (HighlighterView {
            found_by: syntax@.found_by,
            theme: theme@,
            fed: Seq::empty(),
        }),
{
    Highlighter {
        set: syntax.set,
        lines: syntect::easy::HighlightLines::new(syntax.reference, theme.theme),
        found_by: syntax.found_by.clone(),
        theme: theme.name.clone(),
        fed: Vec::new(),
    }
}

/// `HighlightLines::highlight_line` with the highlighter's own set, each
/// stretch's text and foreground colour copied out; `None` where it reports
/// an error. The line is added to the record of what the highlighter was
/// fed. The outcome depends on the syntax, the theme, the lines fed before
/// and the line, and on nothing else. The stretches are consecutive slices
/// of `line` from its start, none of them empty; the crate's iterator may
/// stop before the line's end, so together they are claimed to be a prefix
/// of the line and no more.
#[verifier::external_body]
pub(crate) fn highlight_line(highlighter: &mut Highlighter<'_>, line: &str) -> (tokens: Option<
    Vec<Token>,
>)
    ensures
        tokens.deep_view() == highlighted(
            old(highlighter)@.found_by,
            old(highlighter)@.theme,
            old(highlighter)@.fed,
            line@,
        ),
        final(highlighter)@ == (HighlighterView {
            fed: old(highlighter)@.fed.push(line@),
            ..old(highlighter)@
        }),
        tokens matches Some(found) ==> tokens_text(found.deep_view()).is_prefix_of(line@),
        tokens matches Some(found) ==> forall|i: int|
            0 <= i < found.len() ==> (#[trigger] found[i]).text@.len() > 0,
{
    let ranges = highlighter.lines.highlight_line(line, highlighter.set).ok();
    highlighter.fed.push(line.to_string());
    ranges.map(|found| found.into_iter().map(|(style, text)| {
        let colour = style.foreground;
        Token { text: text.to_string(), red: colour.r, green: colour.g, blue: colour.b }
    }).collect())
}

} // verus!
