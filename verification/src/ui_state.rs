//! The state that the browser keeps between frames.

use vstd::prelude::*;
use crate::common::ErrorKind;
use crate::files::{list_files_and_folders, listed, Entry, EntryView, ItemKind, Listing, ListingView};
use crate::frame::{FrameGrid, FrameGridView};

verus! {

/// What the frame differ remembers between frames: the grid painted last,
/// and whether anything was painted yet.
pub struct FrameState {
    pub buffer: FrameGrid,
    pub initialized: bool,
}

/// The mathematical content of a [`FrameState`].
pub struct FrameStateView {
    pub buffer: FrameGridView,
    pub initialized: bool,
}

impl View for FrameState {
    type V = FrameStateView;

    open spec fn view(&self) -> FrameStateView {
        FrameStateView { buffer: self.buffer@, initialized: self.initialized }
    }
}

impl FrameStateView {
    /// The state once what was painted is forgotten: the next frame is
    /// painted in full.
    pub open spec fn forgotten(self) -> FrameStateView {
        FrameStateView { initialized: false, ..self }
    }
}

impl FrameState {
    /// The state before the first paint: nothing remembered.
    pub fn new() -> (state: Self)
        ensures
            !state@.initialized,
            state@.buffer.wf(),
            state@.buffer.width == 0,
            state@.buffer.height == 0,
    {
        FrameState { buffer: FrameGrid::empty(), initialized: false }
    }

    /// Forgets what was painted, as after the screen was cleared: the next
    /// frame is painted in full.
    pub fn reset(&mut self)
        ensures
            final(self)@ == old(self)@.forgotten(),
    {
        self.initialized = false;
    }
}

/// Which of the two key bindings is in force.
#[derive(Clone, Copy, Debug, PartialEq, Eq, Structural)]
pub enum InputMode {
    /// Arrow keys and Enter.
    Normal,
    /// The letter keys `h`, `j`, `k`, `l` and `o`.
    Alternate,
}

impl InputMode {
    /// The other binding.
    pub open spec fn flipped(self) -> InputMode {
        match self {
            InputMode::Normal => InputMode::Alternate,
            InputMode::Alternate => InputMode::Normal,
        }
    }

    /// The other binding.
    pub fn toggle(self) -> (m: InputMode)
        ensures
            m == self.flipped(),
    {
        match self {
            InputMode::Normal => InputMode::Alternate,
            InputMode::Alternate => InputMode::Normal,
        }
    }
}

/// The time, in milliseconds, that must pass after an accepted key press
/// before the next press is accepted.
pub const KEY_HELD_THRESHOLD: u64 = 100;

/// The browser's navigation model: where it is, what is listed there, what
/// is selected, how it got there, and the bookkeeping of the key-repeat filter.
/// Times are in milliseconds on the caller's monotonic clock.
#[derive(Debug, PartialEq, Eq)]
pub struct DrawableState {
    /// The entries of the current directory, in listing order.
    pub items: Vec<Entry>,
    /// The index of the selected entry; `None` when nothing is listed.
    pub selected_index: Option<usize>,
    /// The directory that is shown.
    pub current_path: String,
    /// The directories descended from, oldest first.
    pub history: Vec<String>,
    /// The key binding in force.
    pub input_mode: InputMode,
    /// Whether a key is held down.
    pub key_held: bool,
    /// How long after an accepted press further presses are ignored.
    pub key_held_threshold: u64,
    /// When the last press was accepted; `None` while no press has been.
    pub last_key_pressed: Option<u64>,
    /// The last recoverable failure, for the status line.
    pub status: Option<ErrorKind>,
}

/// The mathematical content of a [`DrawableState`].
pub struct DrawableStateView {
    pub items: Seq<EntryView>,
    pub selected_index: Option<int>,
    pub current_path: Seq<char>,
    pub history: Seq<Seq<char>>,
    pub input_mode: InputMode,
    pub key_held: bool,
    pub key_held_threshold: int,
    pub last_key_pressed: Option<int>,
    pub status: Option<ErrorKind>,
}

/// The selection that a fresh listing starts with: its first entry, or
/// nothing when it is empty.
pub open spec fn first_selection(items: Seq<EntryView>) -> Option<int> {
    if items.len() > 0 {
        Some(0)
    } else {
        None
    }
}

/// What the status line reports after a walk: a failure to read, or nothing.
pub open spec fn listing_status(walked: ListingView) -> Option<ErrorKind> {
    if walked.failed {
        Some(ErrorKind::ListingFailed)
    } else {
        None
    }
}

impl DrawableStateView {
    /// The state of a browser that has just been opened on `path`, with what
    /// a walk of `path` found. No press has been accepted yet.
    pub open spec fn opened(path: Seq<char>, walked: ListingView) -> DrawableStateView {
        DrawableStateView {
            items: listed(path, walked.entries),
            selected_index: first_selection(listed(path, walked.entries)),
            current_path: path,
            history: Seq::empty(),
            input_mode: InputMode::Normal,
            key_held: false,
            key_held_threshold: KEY_HELD_THRESHOLD as int,
            last_key_pressed: None,
            status: listing_status(walked),
        }
    }

    /// The state once `path` is shown in place of the current directory,
    /// with what a walk of `path` found: its listing, the first entry
    /// selected. The history is left as it is.
    pub open spec fn showing(self, path: Seq<char>, walked: ListingView) -> DrawableStateView {
        DrawableStateView {
            items: listed(path, walked.entries),
            selected_index: first_selection(listed(path, walked.entries)),
            current_path: path,
            status: listing_status(walked),
            ..self
        }
    }

    /// The selection points at a listed entry, and is absent only when
    /// nothing is listed.
    pub open spec fn selection_valid(self) -> bool {
        match self.selected_index {
            Some(i) => 0 <= i < self.items.len(),
            None => self.items.len() == 0,
        }
    }

    /// The history holds each place once and never the current one.
    pub open spec fn history_valid(self) -> bool {
        self.history.no_duplicates() && !self.history.contains(self.current_path)
    }

    /// The invariant of the navigation model.
    pub open spec fn wf(self) -> bool {
        self.selection_valid() && self.history_valid()
    }

    /// The text of the status line: the last failure's message, or nothing.
    pub open spec fn status_text(self) -> Seq<char> {
        match self.status {
            Some(kind) => kind.text(),
            None => ""@,
        }
    }

    /// The selected entry, if the selection points at one.
    pub open spec fn selected(self) -> Option<EntryView> {
        match self.selected_index {
            Some(i) if 0 <= i < self.items.len() => Some(self.items[i]),
            _ => None,
        }
    }

    /// Whether `path` is a place that is neither shown now nor on the way back.
    pub open spec fn is_new_place(self, path: Seq<char>) -> bool {
        path != self.current_path && !self.history.contains(path)
    }

    /// The directory that a descent would enter: the selected entry, if it is
    /// a directory and a new place.
    pub open spec fn descend_target(self) -> Option<Seq<char>> {
        match self.selected() {
            Some(e) if e.kind == ItemKind::Directory && self.is_new_place(e.path) => Some(e.path),
            _ => None,
        }
    }

    /// The directory that an ascent would return to: the one descended from last.
    pub open spec fn ascend_target(self) -> Option<Seq<char>> {
        if self.history.len() > 0 {
            Some(self.history.last())
        } else {
            None
        }
    }

    /// The file that activating the selection would open in the editor.
    pub open spec fn editor_target(self) -> Option<Seq<char>> {
        match self.selected() {
            Some(e) if e.kind == ItemKind::File => Some(e.path),
            _ => None,
        }
    }
}

impl View for DrawableState {
    type V = DrawableStateView;

    open spec fn view(&self) -> DrawableStateView {
        DrawableStateView {
            items: self.items.deep_view(),
            selected_index: match self.selected_index {
                Some(i) => Some(i as int),
                None => None,
            },
            current_path: self.current_path@,
            history: self.history.deep_view(),
            input_mode: self.input_mode,
            key_held: self.key_held,
            key_held_threshold: self.key_held_threshold as int,
            last_key_pressed: match self.last_key_pressed {
                Some(at) => Some(at as int),
                None => None,
            },
            status: self.status,
        }
    }
}

impl DrawableState {
    /// A browser opened on `current_path`, showing what a walk of that
    /// directory found. No press has been accepted yet.
    pub fn new(current_path: String, walked: &Listing) -> (state: Self)
        ensures
            state@ == DrawableStateView::opened(current_path@, walked@),
            state@.wf(),
    {
        let items = list_files_and_folders(current_path.as_str(), &walked.entries);
        let selected_index = if items.len() > 0 {
            Some(0)
        } else {
            None
        };
        let history: Vec<String> = Vec::new();
        assert(history.deep_view() =~= Seq::<Seq<char>>::empty());
        DrawableState {
            items,
            selected_index,
            current_path,
            history,
            input_mode: InputMode::Normal,
            key_held: false,
            key_held_threshold: KEY_HELD_THRESHOLD,
            last_key_pressed: None,
            status: if walked.failed {
                Some(ErrorKind::ListingFailed)
            } else {
                None
            },
        }
    }

    /// Shows `path` in place of the current directory, with what a walk of
    /// `path` found. The history is left as it is.
    pub(crate) fn show(&mut self, path: String, walked: &Listing)
        ensures
            final(self)@ == old(self)@.showing(path@, walked@),
    {
        let items = list_files_and_folders(path.as_str(), &walked.entries);
        self.selected_index = if items.len() > 0 {
            Some(0)
        } else {
            None
        };
        self.items = items;
        self.current_path = path;
        self.status = if walked.failed {
            Some(ErrorKind::ListingFailed)
        } else {
            None
        };
    }

    /// The text of the status line: the last failure's message, or nothing.
    pub fn status_line(&self) -> (text: &'static str)
        ensures
            text@ == self@.status_text(),
    {
        match self.status {
            Some(kind) => kind.message(),
            None => "",
        }
    }

    /// The selected entry, if the selection points at one.
    pub fn selected(&self) -> (entry: Option<&Entry>)
        ensures
            entry.deep_view() == self@.selected(),
    {
        match self.selected_index {
            Some(i) => {
                if i < self.items.len() {
                    Some(&self.items[i])
                } else {
                    None
                }
            },
            None => None,
        }
    }

    /// Whether `path` is a place that is neither shown now nor on the way back.
    pub fn is_new_place(&self, path: &String) -> (fresh: bool)
        ensures
            fresh == self@.is_new_place(path@),
    {
        if *path == self.current_path {
            return false;
        }
        let mut i: usize = 0;
        while i < self.history.len()
            invariant
                i <= self.history.len(),
                forall|j: int| 0 <= j < i ==> self.history[j]@ != path@,
            decreases self.history.len() - i,
        {
            if self.history[i] == *path {
                assert(self.history.deep_view()[i as int] == path@);
                return false;
            }
            i += 1;
        }
        assert forall|j: int| 0 <= j < self.history.deep_view().len() implies self.history.deep_view()[j]
            != path@ by {
            assert(self.history.deep_view()[j] == self.history[j]@);
        }
        true
    }

    /// The directory that a descent would enter: the selected entry, if it is
    /// a directory and a new place.
    pub fn descend_target(&self) -> (target: Option<&String>)
        ensures
            target.deep_view() == self@.descend_target(),
    {
        match self.selected() {
            Some(entry) => {
                if entry.kind == ItemKind::Directory && self.is_new_place(&entry.path) {
                    Some(&entry.path)
                } else {
                    None
                }
            },
            None => None,
        }
    }

    /// The directory that an ascent would return to: the one descended from last.
    pub fn ascend_target(&self) -> (target: Option<&String>)
        ensures
            target.deep_view() == self@.ascend_target(),
    {
        let n = self.history.len();
        if n > 0 {
            Some(&self.history[n - 1])
        } else {
            None
        }
    }

    /// The file that activating the selection would open in the editor.
    pub fn editor_target(&self) -> (target: Option<&String>)
        ensures
            target.deep_view() == self@.editor_target(),
    {
        match self.selected() {
            Some(entry) => {
                if entry.kind == ItemKind::File {
                    Some(&entry.path)
                } else {
                    None
                }
            },
            None => None,
        }
    }
}

} // verus!
