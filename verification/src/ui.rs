//! What a frame shows, and the differ that paints only what has changed
//! since the frame before.

use vstd::prelude::*;
use vstd::string::StringExecFns;
use crate::common::ErrorKind;
use crate::files::{
    entry_name, get_icon, get_name, icon_of, name_of, path_file_name, shown_name, EntryView,
    ItemKind,
};
use crate::frame::{Color, CellWrite, CellWriteView, FrameGrid, FrameGridView};
use crate::styled::{message, SpanView, Style, Text};
use crate::ui_state::{DrawableState, DrawableStateView, FrameState, FrameStateView};

verus! {

/// The write that paints the cell at row-major position `i` of `grid`.
pub open spec fn write_at(grid: FrameGridView, i: int) -> CellWriteView {
    CellWriteView { x: i % (grid.width as int), y: i / (grid.width as int), cell: grid.cells[i] }
}

/// One write per cell of `grid`, row by row.
pub open spec fn full_paint(grid: FrameGridView) -> Seq<CellWriteView> {
    Seq::new(grid.cells.len(), |i: int| write_at(grid, i))
}

/// Whether `grid` cannot be compared with what was painted before: nothing
/// was painted yet, or the terminal has another size now.
pub open spec fn needs_full_paint(prev: FrameStateView, grid: FrameGridView) -> bool {
    !prev.initialized || !prev.buffer.same_size(grid)
}

/// Whether the write `w` shows something else than `prev` at its position.
pub open spec fn changes(prev: FrameGridView, w: CellWriteView) -> bool {
    prev.cell_at(w.x, w.y) != w.cell
}

/// The writes that turn the screen remembered in `prev` into `grid`: every
/// cell on a full paint, else the cells that differ, row by row.
pub open spec fn frame_diff(prev: FrameStateView, grid: FrameGridView) -> Seq<CellWriteView> {
    if needs_full_paint(prev, grid) {
        full_paint(grid)
    } else {
        full_paint(grid).filter(|w: CellWriteView| changes(prev.buffer, w))
    }
}

/// What the differ remembers once `grid` has been painted.
pub open spec fn painted(grid: FrameGridView) -> FrameStateView {
    FrameStateView { buffer: grid, initialized: true }
}

/// In a well-formed grid the write for position `i` lands on position `i`.
pub proof fn lemma_write_at_position(grid: FrameGridView, i: int)
    requires
        grid.wf(),
        0 <= i < grid.cells.len(),
    ensures
        0 <= write_at(grid, i).x < grid.width,
        0 <= write_at(grid, i).y < grid.height,
        write_at(grid, i).y * grid.width + write_at(grid, i).x == i,
{
    let w = grid.width as int;
    assert(w > 0) by (nonlinear_arith)
        requires
            0 <= i < w * (grid.height as int),
            w >= 0,
    ;
    vstd::arithmetic::div_mod::lemma_fundamental_div_mod(i, w);
    vstd::arithmetic::div_mod::lemma_mod_bound(i, w);
    vstd::arithmetic::div_mod::lemma_div_pos_is_pos(i, w);
    assert((i / w) * w == w * (i / w)) by (nonlinear_arith);
    assert(i / w < grid.height) by (nonlinear_arith)
        requires
            0 <= i < w * (grid.height as int),
            w > 0,
            i == w * (i / w) + i % w,
            0 <= i % w < w,
    ;
}

/// Computes the cell writes that bring the terminal from the frame painted
/// last to `grid`, and remembers `grid` as the frame painted last.
pub fn render_frame_diff(state: &mut FrameState, grid: &FrameGrid) -> (writes: Vec<CellWrite>)
    ensures
        writes.deep_view() == frame_diff(old(state)@, grid@),
        final(state)@ == painted(grid@),
        writes.len() <= grid@.cells.len(),
        needs_full_paint(old(state)@, grid@) ==> writes.len() == grid@.width * grid@.height,
{
    let width = grid.width();
    let height = grid.height();
    let total = grid.len();
    let prev_width = state.buffer.width();
    let prev_height = state.buffer.height();
    let full = !state.initialized || prev_width != width || prev_height != height;
    let ghost prev = state@;
    let ghost pred = |w: CellWriteView| changes(prev.buffer, w);
    let mut writes: Vec<CellWrite> = Vec::new();
    let mut i: usize = 0;
    while i < total
        invariant
            i <= total,
            total == grid@.cells.len(),
            grid@.wf(),
            width == grid@.width,
            height == grid@.height,
            prev == state@,
            prev.buffer.wf(),
            full == needs_full_paint(prev, grid@),
            pred == |w: CellWriteView| changes(prev.buffer, w),
            full ==> writes.deep_view() == full_paint(grid@).take(i as int),
            !full ==> writes.deep_view() == full_paint(grid@).take(i as int).filter(pred),
            writes.len() <= i,
        decreases total - i,
    {
        proof {
            lemma_write_at_position(grid@, i as int);
        }
        let cell = grid.cell(i);
        let x = (i % (width as usize)) as u16;
        let y = (i / (width as usize)) as u16;
        assert(!full ==> prev.buffer.cell_at(x as int, y as int) == prev.buffer.cells[i as int]);
        let changed = full || !state.buffer.cell(i).same_as(cell);
        let ghost before = writes.deep_view();
        if changed {
            writes.push(CellWrite { x, y, cell: cell.clone() });
        }
        proof {
            let painted = full_paint(grid@);
            let w = write_at(grid@, i as int);
            assert(painted.take(i as int + 1) =~= painted.take(i as int).push(w));
            painted.take(i as int).lemma_filter_push(w, pred);
            if changed {
                assert(writes.deep_view() =~= before.push(w));
            } else {
                assert(writes.deep_view() =~= before);
            }
        }
        i += 1;
    }
    assert(full_paint(grid@).take(total as int) =~= full_paint(grid@));
    state.buffer = grid.clone();
    state.initialized = true;
    writes
}

/// A filter that keeps as many items as there are keeps every item.
proof fn lemma_filter_keeps_all<A>(s: Seq<A>, pred: spec_fn(A) -> bool)
    requires
        s.filter(pred).len() == s.len(),
    ensures
        forall|i: int| 0 <= i < s.len() ==> pred(#[trigger] s[i]),
    decreases s.len(),
{
    if s.len() > 0 {
        let front = s.drop_last();
        assert(front.push(s.last()) =~= s);
        front.lemma_filter_push(s.last(), pred);
        front.lemma_filter_len(pred);
        lemma_filter_keeps_all(front, pred);
        assert forall|i: int| 0 <= i < s.len() implies pred(#[trigger] s[i]) by {
            if i < s.len() - 1 {
                assert(front[i] == s[i]);
            }
        }
    }
}

/// A filter that no item passes keeps nothing.
proof fn lemma_filter_keeps_none<A>(s: Seq<A>, pred: spec_fn(A) -> bool)
    requires
        forall|i: int| 0 <= i < s.len() ==> !pred(#[trigger] s[i]),
    ensures
        s.filter(pred) == Seq::<A>::empty(),
    decreases s.len(),
{
    if s.len() > 0 {
        let front = s.drop_last();
        assert(front.push(s.last()) =~= s);
        front.lemma_filter_push(s.last(), pred);
        assert forall|i: int| 0 <= i < front.len() implies !pred(#[trigger] front[i]) by {
            assert(front[i] == s[i]);
        }
        lemma_filter_keeps_none(front, pred);
    } else {
        s.lemma_filter_len(pred);
        assert(s.filter(pred) =~= Seq::<A>::empty());
    }
}

/// Completeness of the first frame: with nothing painted yet, or after a
/// resize, the diff holds exactly one write per cell of the grid, row by row,
/// each with the grid's own cell at that position.
pub proof fn lemma_first_frame_paints_all(prev: FrameStateView, grid: FrameGridView)
    requires
        grid.wf(),
        needs_full_paint(prev, grid),
    ensures
        frame_diff(prev, grid).len() == grid.width * grid.height,
        forall|i: int|
            0 <= i < grid.width * grid.height ==> {
                let w = #[trigger] frame_diff(prev, grid)[i];
                &&& w.cell == grid.cells[i]
                &&& 0 <= w.x < grid.width
                &&& 0 <= w.y < grid.height
                &&& w.y * grid.width + w.x == i
            },
{
    assert forall|i: int| 0 <= i < grid.width * grid.height implies {
        let w = #[trigger] frame_diff(prev, grid)[i];
        &&& w.cell == grid.cells[i]
        &&& 0 <= w.x < grid.width
        &&& 0 <= w.y < grid.height
        &&& w.y * grid.width + w.x == i
    } by {
        lemma_write_at_position(grid, i);
    }
}

/// Idempotence: once `grid` has been painted, painting the same grid again
/// takes no write at all.
pub proof fn lemma_same_frame_emits_nothing(grid: FrameGridView)
    requires
        grid.wf(),
    ensures
        frame_diff(painted(grid), grid) == Seq::<CellWriteView>::empty(),
{
    let pred = |w: CellWriteView| changes(grid, w);
    let all = full_paint(grid);
    assert forall|i: int| 0 <= i < all.len() implies !pred(#[trigger] all[i]) by {
        lemma_write_at_position(grid, i);
    }
    lemma_filter_keeps_none(all, pred);
}

/// The diff never holds more writes than the grid has cells. Short of a
/// full paint every write is a change, and the diff holds as many writes as
/// the grid has cells only when every cell of the screen has changed.
pub proof fn lemma_diff_is_minimal(prev: FrameStateView, grid: FrameGridView)
    requires
        prev.buffer.wf(),
        grid.wf(),
    ensures
        frame_diff(prev, grid).len() <= grid.cells.len(),
        !needs_full_paint(prev, grid) ==> forall|k: int|
            0 <= k < frame_diff(prev, grid).len() ==> changes(
                prev.buffer,
                #[trigger] frame_diff(prev, grid)[k],
            ),
        !needs_full_paint(prev, grid) && frame_diff(prev, grid).len() == grid.cells.len()
            ==> forall|i: int|
            0 <= i < grid.cells.len() ==> #[trigger] prev.buffer.cells[i] != grid.cells[i],
{
    let pred = |w: CellWriteView| changes(prev.buffer, w);
    let all = full_paint(grid);
    all.lemma_filter_len(pred);
    if !needs_full_paint(prev, grid) {
        if all.filter(pred).len() == all.len() {
            lemma_filter_keeps_all(all, pred);
            assert forall|i: int| 0 <= i < grid.cells.len() implies #[trigger] prev.buffer.cells[i]
                != grid.cells[i] by {
                lemma_write_at_position(grid, i);
                assert(pred(all[i]));
            }
        }
        assert forall|k: int| 0 <= k < all.filter(pred).len() implies changes(
            prev.buffer,
            #[trigger] all.filter(pred)[k],
        ) by {
            all.lemma_filter_pred(pred, k);
        }
    }
}

/// What the list pane shows: a titled list of labels, one of them
/// highlighted.
#[derive(Debug, PartialEq, Eq)]
pub struct ListPane {
    pub title: String,
    pub labels: Vec<String>,
    pub selected: Option<usize>,
    /// The style of the highlighted label.
    pub highlight: Style,
}

/// The mathematical content of a [`ListPane`].
pub struct ListPaneView {
    pub title: Seq<char>,
    pub labels: Seq<Seq<char>>,
    pub selected: Option<int>,
    pub highlight: Style,
}

impl View for ListPane {
    type V = ListPaneView;

    open spec fn view(&self) -> ListPaneView {
        ListPaneView {
            title: self.title@,
            labels: self.labels.deep_view(),
            selected: match self.selected {
                Some(i) => Some(i as int),
                None => None,
            },
            highlight: self.highlight,
        }
    }
}

/// What the preview pane shows: a titled block of text.
#[derive(Debug, PartialEq, Eq)]
pub struct PreviewPane {
    pub title: String,
    pub body: Text,
}

/// The mathematical content of a [`PreviewPane`].
pub struct PreviewPaneView {
    pub title: Seq<char>,
    pub body: Seq<Seq<SpanView>>,
}

impl View for PreviewPane {
    type V = PreviewPaneView;

    open spec fn view(&self) -> PreviewPaneView {
        PreviewPaneView { title: self.title@, body: self.body@ }
    }
}

/// A list label: the entry's sign, a space, the entry's name.
pub open spec fn label_text(icon: Seq<char>, name: Seq<char>) -> Seq<char> {
    icon + " "@ + name
}

/// The list pane's title for a directory of this name.
pub open spec fn list_title(name: Seq<char>) -> Seq<char> {
    "Files Tree: "@ + name
}

/// The preview pane's title for a file of this name.
pub open spec fn file_title(name: Seq<char>) -> Seq<char> {
    "File Preview: "@ + name
}

/// The highlighted label's style: black on blue.
pub open spec fn highlight_style() -> Style {
    Style { fg: Some(Color::Black), bg: Some(Color::Blue) }
}

/// The label of a listed entry.
pub open spec fn label_of(entry: EntryView) -> Seq<char> {
    label_text(icon_of(entry.kind), name_of(entry))
}

/// The list pane for a state.
pub open spec fn list_pane(state: DrawableStateView) -> ListPaneView {
    ListPaneView {
        title: list_title(shown_name(path_file_name(state.current_path))),
        labels: Seq::new(state.items.len(), |i: int| label_of(state.items[i])),
        selected: state.selected_index,
        highlight: highlight_style(),
    }
}

/// The preview pane for a state. `content` is the selected file's styled
/// content, or why there is none; it matters only where a file is selected.
pub open spec fn preview_pane(
    state: DrawableStateView,
    content: Result<Seq<Seq<SpanView>>, ErrorKind>,
) -> PreviewPaneView {
    match state.selected() {
        Some(entry) => if entry.kind == ItemKind::File {
            PreviewPaneView {
                title: file_title(name_of(entry)),
                body: match content {
                    Ok(text) => text,
                    Err(_) => message("Unable to read file"@),
                },
            }
        } else {
            PreviewPaneView { title: "File Preview"@, body: message("Select a file to preview"@) }
        },
        None => PreviewPaneView {
            title: "File Preview"@,
            body: if state.selected_index is Some {
                message("No file selected"@)
            } else {
                message("Select a file to view it"@)
            },
        },
    }
}

/// A list label: the entry's sign, a space, the entry's name.
pub fn label(icon: &str, name: &str) -> (text: String)
    ensures
        text@ == label_text(icon@, name@),
{
    let mut text = icon.to_owned();
    text.append(" ");
    text.append(name);
    text
}

/// `prefix` followed by `name`.
pub fn titled(prefix: &str, name: &str) -> (title: String)
    ensures
        title@ == prefix@ + name@,
{
    let mut title = prefix.to_owned();
    title.append(name);
    title
}

/// Builds the list pane: the current directory's name in the title, one
/// label per listed entry, the selected one highlighted.
pub fn draw_left_side(state: &DrawableState) -> (pane: ListPane)
    ensures
        pane@ == list_pane(state@),
{
    let mut labels: Vec<String> = Vec::new();
    let mut i: usize = 0;
    while i < state.items.len()
        invariant
            i <= state.items.len(),
            labels.len() == i,
            forall|j: int| 0 <= j < i ==> labels[j]@ == label_of(state.items[j]@),
        decreases state.items.len() - i,
    {
        let entry = &state.items[i];
        let name = entry_name(entry);
        labels.push(label(get_icon(entry), name.as_str()));
        i += 1;
    }
    let name = get_name(state.current_path.as_str());
    let pane = ListPane {
        title: titled("Files Tree: ", name.as_str()),
        labels,
        selected: state.selected_index,
        highlight: Style { fg: Some(Color::Black), bg: Some(Color::Blue) },
    };
    assert(pane@.labels =~= list_pane(state@).labels);
    pane
}

/// Builds the preview pane: the selected file's content under the file's
/// name, or a line that says why there is nothing to show. `content` is the
/// selected file's styled content, or why there is none; it is looked at only
/// where a file is selected.
pub fn draw_right_side(state: &DrawableState, content: Result<Text, ErrorKind>) -> (pane:
    PreviewPane)
    ensures
        pane@ == preview_pane(
            state@,
            match content {
                Ok(text) => Ok(text@),
                Err(kind) => Err(kind),
            },
        ),
{
    match state.selected() {
        Some(entry) => {
            if entry.kind == ItemKind::File {
                let name = entry_name(entry);
                PreviewPane {
                    title: titled("File Preview: ", name.as_str()),
                    body: match content {
                        Ok(text) => text,
                        Err(_) => Text::raw("Unable to read file"),
                    },
                }
            } else {
                PreviewPane {
                    title: "File Preview".to_owned(),
                    body: Text::raw("Select a file to preview"),
                }
            }
        },
        None => PreviewPane {
            title: "File Preview".to_owned(),
            body: if state.selected_index.is_some() {
                Text::raw("No file selected")
            } else {
                Text::raw("Select a file to view it")
            },
        },
    }
}

/// The share of the terminal's width, in percent, that the list pane takes.
pub const LEFT_PANE_PERCENT: u16 = 30;

/// The share of the terminal's width, in percent, that the preview pane takes.
pub const RIGHT_PANE_PERCENT: u16 = 70;

/// What one frame shows: the list on the left, the preview on the right.
#[derive(Debug, PartialEq, Eq)]
pub struct Screen {
    pub left: ListPane,
    pub right: PreviewPane,
}

/// Builds both panes of a frame. `content` is the selected file's styled
/// content, or why there is none; it is looked at only where a file is
/// selected.
pub fn draw(state: &DrawableState, content: Result<Text, ErrorKind>) -> (screen: Screen)
    ensures
        screen.left@ == list_pane(state@),
        screen.right@ == preview_pane(
            state@,
            match content {
                Ok(text) => Ok(text@),
                Err(kind) => Err(kind),
            },
        ),
{
    Screen { left: draw_left_side(state), right: draw_right_side(state, content) }
}

} // verus!
