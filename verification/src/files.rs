//! Directory entries: their names and signs, what a listing shows of a
//! walk, and the coloured preview of a file.

use vstd::prelude::*;
use crate::highlight::{
    find_syntax, first_hit, lines_with_endings, queries_for, split_lines, styled, styled_line,
    syntax_queries, without_ending,
};
use crate::styled::{line_content, plain_line, Line, SpanView, Text};
use crate::syntax::{
    highlight_line, highlighted, load_syntaxes, load_themes, new_highlighter, theme_is_shipped,
    theme_named, tokens_text, HighlighterView, Syntax, SyntaxView, Syntaxes, TokenView,
};
use crate::text::{contains, equal, has_infix};

verus! {

/// What a listed path is, settled once when the directory is read.
#[derive(Clone, Copy, Debug, PartialEq, Eq, Structural)]
pub enum ItemKind {
    File,
    Directory,
}

/// One entry of a listed directory.
#[derive(Debug, PartialEq, Eq)]
pub struct Entry {
    /// The entry's path as text. Where the path on disk is no valid text,
    /// this is a readable stand-in for it.
    pub path: String,
    pub kind: ItemKind,
    /// Whether the entry's name on disk is valid text. An entry whose name is
    /// not is listed without a name.
    pub name_is_text: bool,
}

/// The mathematical content of an [`Entry`].
pub struct EntryView {
    pub path: Seq<char>,
    pub kind: ItemKind,
    pub name_is_text: bool,
}

impl View for Entry {
    type V = EntryView;

    open spec fn view(&self) -> EntryView {
        EntryView { path: self.path@, kind: self.kind, name_is_text: self.name_is_text }
    }
}

impl DeepView for Entry {
    type V = EntryView;

    open spec fn deep_view(&self) -> EntryView {
        self@
    }
}

impl Clone for Entry {
    fn clone(&self) -> (e: Self)
        ensures
            e@ == self@,
    {
        Entry { path: self.path.clone(), kind: self.kind, name_is_text: self.name_is_text }
    }
}

/// What a walk of one directory, one level deep, came back with.
#[derive(Debug, PartialEq, Eq)]
pub struct Listing {
    /// The entries that could be read, in the walk's order; the walked
    /// directory itself may be among them.
    pub entries: Vec<Entry>,
    /// Whether the directory, or something in it, could not be read.
    pub failed: bool,
}

/// The mathematical content of a [`Listing`].
pub struct ListingView {
    pub entries: Seq<EntryView>,
    pub failed: bool,
}

impl View for Listing {
    type V = ListingView;

    open spec fn view(&self) -> ListingView {
        ListingView { entries: self.entries.deep_view(), failed: self.failed }
    }
}

/// The name of the directory that marks a repository's root, and that no
/// listing shows.
pub const GIT_DIR: &'static str = ".git";

/// Whether a walk's entry belongs in the listing of `current_path`: it is
/// not that directory itself, and nothing in its path names the repository's
/// own data.
pub open spec fn is_listed(current_path: Seq<char>, entry: EntryView) -> bool {
    entry.path != current_path && !has_infix(entry.path, GIT_DIR@)
}

/// The listing of `current_path`: the entries of the walk that belong in
/// it, in the walk's order.
pub open spec fn listed(current_path: Seq<char>, walked: Seq<EntryView>) -> Seq<EntryView> {
    walked.filter(|entry: EntryView| is_listed(current_path, entry))
}

/// Turns what a one-level walk of `current_path` found into the listing to
/// show.
pub fn list_files_and_folders(current_path: &str, walked: &Vec<Entry>) -> (items: Vec<Entry>)
    ensures
        items.deep_view() == listed(current_path@, walked.deep_view()),
{
    let ghost keep = |entry: EntryView| is_listed(current_path@, entry);
    let mut items: Vec<Entry> = Vec::new();
    let mut i: usize = 0;
    while i < walked.len()
        invariant
            i <= walked.len(),
            keep == |entry: EntryView| is_listed(current_path@, entry),
            items.deep_view() == walked.deep_view().take(i as int).filter(keep),
        decreases walked.len() - i,
    {
        let entry = &walked[i];
        let ghost before = items.deep_view();
        let wanted = !equal(entry.path.as_str(), current_path) && !contains(
            entry.path.as_str(),
            GIT_DIR,
        );
        if wanted {
            items.push(entry.clone());
        }
        proof {
            let all = walked.deep_view();
            assert(all.take(i as int + 1) =~= all.take(i as int).push(entry@));
            all.take(i as int).lemma_filter_push(entry@, keep);
            if wanted {
                assert(items.deep_view() =~= before.push(entry@));
            } else {
                assert(items.deep_view() =~= before);
            }
        }
        i += 1;
    }
    assert(walked.deep_view().take(walked.len() as int) =~= walked.deep_view());
    items
}

/// The sign shown before a directory's name.
pub const FOLDER_ICON: &'static str = "\u{1F4C1}";

/// The sign shown before a file's name.
pub const FILE_ICON: &'static str = "\u{1F4C4}";

/// The sign that stands for entries of this kind.
pub open spec fn icon_of(kind: ItemKind) -> Seq<char> {
    match kind {
        ItemKind::Directory => FOLDER_ICON@,
        ItemKind::File => FILE_ICON@,
    }
}

/// The sign shown before the entry's name: a folder or a sheet of paper.
pub fn get_icon(entry: &Entry) -> (icon: &'static str)
    ensures
        icon@ == icon_of(entry@.kind),
{
    match entry.kind {
        ItemKind::Directory => FOLDER_ICON,
        ItemKind::File => FILE_ICON,
    }
}

/// Whether a directory is a repository's root, given what was found under
/// the name [`GIT_DIR`] inside it: it is one exactly if that is a directory.
pub fn is_git_repo(git_dir: Option<ItemKind>) -> (is_repo: bool)
    ensures
        is_repo == (git_dir == Some(ItemKind::Directory)),
{
    match git_dir {
        Some(ItemKind::Directory) => true,
        _ => false,
    }
}

/// The final component of a path, as `std::path::Path::file_name` gives it
/// for the path written `path`: `None` where the path ends in `..` or has no
/// component at all.
pub uninterp spec fn path_file_name(path: Seq<char>) -> Option<Seq<char>>;

/// `std::path::Path::file_name` on the path written `path`. The contract
/// only gives the result its name: the final component is what the standard
/// library's path syntax makes it, and that syntax is not restated here.
#[verifier::external_body]
fn file_name(path: &str) -> (name: Option<String>)
    ensures
        name.deep_view() == path_file_name(path@),
{
    std::path::Path::new(path).file_name().and_then(|name| name.to_str()).map(|name| name.to_string())
}

/// The name to show for a path whose final component is `file_name`: that
/// component, or nothing where there is none.
pub open spec fn shown_name(file_name: Option<Seq<char>>) -> Seq<char> {
    match file_name {
        Some(name) => name,
        None => Seq::empty(),
    }
}

/// The name to show for a path whose final component is `file_name`.
pub fn name_or_empty(file_name: Option<String>) -> (name: String)
    ensures
        name@ == shown_name(file_name.deep_view()),
{
    match file_name {
        Some(name) => name,
        None => String::new(),
    }
}

/// The name to show for `path`: its final component, or nothing where it
/// has none.
pub fn get_name(path: &str) -> (name: String)
    ensures
        name@ == shown_name(path_file_name(path@)),
{
    name_or_empty(file_name(path))
}

/// The name to show for a listed entry: the final component of its path, or
/// nothing where its name on disk is no valid text.
pub open spec fn name_of(entry: EntryView) -> Seq<char> {
    if entry.name_is_text {
        shown_name(path_file_name(entry.path))
    } else {
        Seq::empty()
    }
}

/// The name to show for a listed entry.
pub fn entry_name(entry: &Entry) -> (name: String)
    ensures
        name@ == name_of(entry@),
{
    if entry.name_is_text {
        get_name(entry.path.as_str())
    } else {
        String::new()
    }
}

/// The number of lines of a file that a preview shows at most.
pub const MAX_LINES: usize = 500;

/// The line that ends the preview of a file with more lines than are shown.
pub const TRUNCATION_NOTE: &'static str = "... (file truncated for performance)";

/// The theme that previews are coloured with.
pub const THEME: &'static str = "base16-ocean.dark";

/// Whether the tokens are what a highlighter may hand back for `line`:
/// consecutive stretches of the line from its start, none of them empty.
pub open spec fn tokens_of_line(tokens: Seq<TokenView>, line: Seq<char>) -> bool {
    &&& tokens_text(tokens).is_prefix_of(line)
    &&& forall|i: int| 0 <= i < tokens.len() ==> (#[trigger] tokens[i]).text.len() > 0
}

/// Whether `shown` is a styled line for the file's line `line`: the line's
/// tokens as spans, or the line as it is, without its ending and in no style.
pub open spec fn shows_line(shown: Seq<SpanView>, line: Seq<char>) -> bool {
    ||| shown == styled(line, None)
    ||| exists|tokens: Seq<TokenView>|
        tokens_of_line(tokens, line) && shown == #[trigger] styled(line, Some(tokens))
}

/// Whether `shown` is a preview of a file with the lines `lines`: one styled
/// line for each of the first [`MAX_LINES`] lines, and after them a note if
/// the file has more.
pub open spec fn is_preview_of(shown: Seq<Seq<SpanView>>, lines: Seq<Seq<char>>) -> bool {
    &&& shown.len() == if lines.len() > MAX_LINES {
        MAX_LINES + 1
    } else {
        lines.len() as int
    }
    &&& forall|i: int|
        0 <= i < lines.len() && i < MAX_LINES ==> shows_line(#[trigger] shown[i], lines[i])
    &&& lines.len() > MAX_LINES ==> shown[MAX_LINES as int] == plain_line(TRUNCATION_NOTE@)
}

/// The first line of a file with the lines `lines`; the empty text where
/// the file has none.
pub open spec fn first_line_of(lines: Seq<Seq<char>>) -> Seq<char> {
    if lines.len() > 0 {
        lines[0]
    } else {
        Seq::empty()
    }
}

/// The syntax that colours the preview of the file at `path` with the lines
/// `lines`: the first that the lookups for that file find, in their order.
pub open spec fn chosen_syntax(path: Seq<char>, lines: Seq<Seq<char>>) -> Option<SyntaxView> {
    first_hit(queries_for(path, path_file_name(path), first_line_of(lines)))
}

/// What the highlighter makes of line `i` of a file, after the lines before
/// it: nothing where no syntax was found or the theme is not to be had.
pub open spec fn line_tokens(syntax: Option<SyntaxView>, lines: Seq<Seq<char>>, i: int) -> Option<
    Seq<TokenView>,
> {
    match syntax {
        Some(found) => if theme_is_shipped(THEME@) {
            highlighted(found.found_by, THEME@, lines.take(i), lines[i])
        } else {
            None
        },
        None => None,
    }
}

/// The number of lines of a file with `count` lines that a preview colours.
pub open spec fn shown_count(count: nat) -> nat {
    if count > MAX_LINES {
        MAX_LINES as nat
    } else {
        count
    }
}

/// The preview of the file at `path` with the lines `lines`: each of the
/// first [`MAX_LINES`] lines as the highlighter colours it, fed the lines in
/// order, and after them a note if the file has more.
pub open spec fn preview(path: Seq<char>, lines: Seq<Seq<char>>) -> Seq<Seq<SpanView>> {
    let coloured = Seq::new(
        shown_count(lines.len()),
        |i: int| styled(lines[i], line_tokens(chosen_syntax(path, lines), lines, i)),
    );
    if lines.len() > MAX_LINES {
        coloured.push(plain_line(TRUNCATION_NOTE@))
    } else {
        coloured
    }
}

/// Selects, among the shipped syntaxes, the one for the file at `file_path`
/// whose content begins with the line `first_line`: the first syntax that
/// the lookups for that file find, in their order.
pub(crate) fn select_syntax<'a>(syntaxes: &'a Syntaxes, file_path: &str, first_line: &str) -> (found:
    Option<Syntax<'a>>)
    ensures
        found.deep_view() == first_hit(
            queries_for(file_path@, path_file_name(file_path@), first_line@),
        ),
{
    let queries = syntax_queries(file_path, file_name(file_path), first_line);
    find_syntax(syntaxes, &queries)
}

/// The name of the syntax that colours the preview of the file at
/// `file_path` whose content begins with the line `first_line`; `None` where
/// the shipped syntaxes hold none for it.
pub fn syntax_of(file_path: &str, first_line: &str) -> (name: Option<String>)
    ensures
        name.deep_view() == match first_hit(
            queries_for(file_path@, path_file_name(file_path@), first_line@),
        ) {
            Some(found) => Some(found.name),
            None => None,
        },
{
    let syntaxes = load_syntaxes();
    match select_syntax(&syntaxes, file_path, first_line) {
        Some(found) => Some(found.name()),
        None => None,
    }
}

/// Builds the preview of the file at `file_path`, whose content is
/// `content`: its lines coloured by the syntax that its name or its first
/// line selects, up to [`MAX_LINES`] of them. A line that the highlighter
/// fails on, and every line where no syntax or theme is to be had, is shown
/// as it is.
pub fn highlight_file_content(file_path: &str, content: &str) -> (text: Text)
    ensures
        text@ == preview(file_path@, split_lines(content@)),
        is_preview_of(text@, split_lines(content@)),
{
    let syntaxes = load_syntaxes();
    let themes = load_themes();
    let lines = lines_with_endings(content);
    let ghost all = split_lines(content@);
    let ghost chosen = chosen_syntax(file_path@, all);
    let syntax = if lines.len() > 0 {
        select_syntax(&syntaxes, file_path, lines[0].as_str())
    } else {
        select_syntax(&syntaxes, file_path, "")
    };
    proof {
        reveal_strlit("");
        assert(""@ =~= Seq::<char>::empty());
        assert(lines.len() > 0 ==> lines[0]@ == all[0]);
    }
    assert(syntax.deep_view() == chosen);
    let theme = theme_named(&themes, THEME);
    let mut highlighter = match syntax {
        Some(found) => match theme {
            Some(theme) => Some(new_highlighter(&found, &theme)),
            None => None,
        },
        None => None,
    };
    assert(all.take(0) =~= Seq::<Seq<char>>::empty());
    let mut shown: Vec<Line> = Vec::new();
    let mut i: usize = 0;
    while i < lines.len() && i < MAX_LINES
        invariant
            i <= lines.len(),
            i <= MAX_LINES,
            shown.len() == i,
            all == lines.deep_view(),
            chosen == chosen_syntax(file_path@, all),
            highlighter is Some <==> chosen is Some && theme_is_shipped(THEME@),
            highlighter matches Some(fed) ==> fed@ == (HighlighterView {
                found_by: chosen->0.found_by,
                theme: THEME@,
                fed: all.take(i as int),
            }),
            forall|j: int| 0 <= j < i ==> shows_line(#[trigger] shown[j]@, all[j]),
            forall|j: int|
                0 <= j < i ==> #[trigger] shown[j]@ == styled(all[j], line_tokens(chosen, all, j)),
        decreases lines.len() - i,
    {
        let line = lines[i].as_str();
        let tokens = match &mut highlighter {
            Some(lines_highlighter) => highlight_line(lines_highlighter, line),
            None => None,
        };
        let ghost found = tokens.deep_view();
        let shown_line = styled_line(line, tokens);
        proof {
            assert(all[i as int] == line@);
            assert(found == line_tokens(chosen, all, i as int));
            if let Some(tokens) = found {
                assert(tokens_of_line(tokens, line@));
            }
            assert(all.take(i as int).push(line@) =~= all.take(i as int + 1));
        }
        shown.push(shown_line);
        i += 1;
    }
    if lines.len() > MAX_LINES {
        shown.push(Line::raw(TRUNCATION_NOTE.to_owned()));
    }
    let text = Text { lines: shown };
    assert(text@ =~= preview(file_path@, all));
    text
}

/// The spans made of tokens show the tokens' text.
proof fn lemma_styled_tokens_content(line: Seq<char>, tokens: Seq<TokenView>)
    ensures
        line_content(styled(line, Some(tokens))) == tokens_text(tokens),
    decreases tokens.len(),
{
    if tokens.len() > 0 {
        lemma_styled_tokens_content(line, tokens.drop_last());
        assert(styled(line, Some(tokens)).drop_last() =~= styled(line, Some(tokens.drop_last())));
    }
}

/// Whatever a preview shows for a line of the file is text of that line:
/// the line's beginning, at the least without its ending.
pub proof fn lemma_shown_text_is_from_line(shown: Seq<SpanView>, line: Seq<char>)
    requires
        shows_line(shown, line),
    ensures
        line_content(shown).is_prefix_of(line),
{
    if shown == styled(line, None) {
        assert(shown.drop_last() =~= Seq::<SpanView>::empty());
        assert(line_content(shown.drop_last()) =~= Seq::<char>::empty());
        assert(line_content(shown) =~= without_ending(line));
    } else {
        let tokens = choose|tokens: Seq<TokenView>|
            tokens_of_line(tokens, line) && shown == #[trigger] styled(line, Some(tokens));
        lemma_styled_tokens_content(line, tokens);
    }
}

} // verus!
