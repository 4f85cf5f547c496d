//! What the browser's loop does about a signal of the state machine, and the
//! moves between directories.

use vstd::prelude::*;
use crate::common::ErrorKind;
use crate::events::AppState;
use crate::files::{is_git_repo, ItemKind, Listing, ListingView};
use crate::files::listed;
use crate::ui_state::{first_selection, DrawableState, DrawableStateView, FrameState};

verus! {

/// What the loop is to do about a signal of the state machine. The work
/// itself, listing a directory, running the editor, sleeping, is the loop's.
#[derive(Debug, PartialEq, Eq)]
pub enum Action {
    /// Leave the loop.
    Quit,
    /// Draw the state again and read on.
    Continue,
    /// Sleep for this many milliseconds, then read on.
    Sleep(u64),
    /// Run the editor on this file, then report its end with [`editor_closed`].
    OpenEditor(String),
    /// Walk this directory, then enter it with [`descend`].
    Descend(String),
    /// Walk this directory, then return to it with [`ascend`].
    Ascend(String),
}

/// The mathematical content of an [`Action`].
pub enum ActionView {
    Quit,
    Continue,
    Sleep(u64),
    OpenEditor(Seq<char>),
    Descend(Seq<char>),
    Ascend(Seq<char>),
}

impl View for Action {
    type V = ActionView;

    open spec fn view(&self) -> ActionView {
        match self {
            Action::Quit => ActionView::Quit,
            Action::Continue => ActionView::Continue,
            Action::Sleep(wait) => ActionView::Sleep(*wait),
            Action::OpenEditor(path) => ActionView::OpenEditor(path@),
            Action::Descend(path) => ActionView::Descend(path@),
            Action::Ascend(path) => ActionView::Ascend(path@),
        }
    }
}

impl DrawableStateView {
    /// What the loop is to do about `signal` in this state. Activating a
    /// file opens it in the editor; activating a directory enters it.
    pub open spec fn action_for(self, signal: AppState) -> ActionView {
        match signal {
            AppState::Quit => ActionView::Quit,
            AppState::Relax(wait) => ActionView::Sleep(wait),
            AppState::OpenNvim => match self.editor_target() {
                Some(file) => ActionView::OpenEditor(file),
                None => match self.descend_target() {
                    Some(dir) => ActionView::Descend(dir),
                    None => ActionView::Continue,
                },
            },
            AppState::GoForward => match self.descend_target() {
                Some(dir) => ActionView::Descend(dir),
                None => ActionView::Continue,
            },
            AppState::GoBack => match self.ascend_target() {
                Some(dir) => ActionView::Ascend(dir),
                None => ActionView::Continue,
            },
            AppState::KeepOpen => ActionView::Continue,
            AppState::ToggleMode => ActionView::Continue,
        }
    }

    /// Whether the loop puts the cursor back to the screen's first position
    /// before it acts on `signal`: before a move to another directory, asked
    /// for by either key; before the editor takes the screen; and, with an
    /// entry selected, before the next frame is drawn.
    pub open spec fn homes_cursor(self, signal: AppState) -> bool {
        match signal {
            AppState::GoBack => true,
            AppState::GoForward => true,
            AppState::OpenNvim => self.editor_target() is Some || self.descend_target() is Some,
            AppState::KeepOpen => self.selected_index is Some,
            AppState::ToggleMode => self.selected_index is Some,
            AppState::Relax(_) => false,
            AppState::Quit => false,
        }
    }

    /// The state after a descent into the selected directory, with what a
    /// walk of that directory found: the place left is pushed on the history.
    /// Unchanged where there is nothing to descend into.
    pub open spec fn descended(self, walked: ListingView) -> DrawableStateView {
        match self.descend_target() {
            Some(dir) => DrawableStateView {
                history: self.history.push(self.current_path),
                ..self.showing(dir, walked)
            },
            None => self,
        }
    }

    /// The state after an ascent to the place descended from last, with what
    /// a walk of that directory found: the place is popped off the history.
    /// Unchanged where the history is empty.
    pub open spec fn ascended(self, walked: ListingView) -> DrawableStateView {
        match self.ascend_target() {
            Some(dir) => DrawableStateView {
                history: self.history.drop_last(),
                ..self.showing(dir, walked)
            },
            None => self,
        }
    }

    /// The state once the editor has been run, or could not be.
    pub open spec fn after_editor(self, launched: bool) -> DrawableStateView {
        DrawableStateView {
            status: if launched {
                None
            } else {
                Some(ErrorKind::ProcessSpawnFailed)
            },
            ..self
        }
    }
}

/// Decides what the loop is to do about `signal`.
pub fn next_action(state: &DrawableState, signal: AppState) -> (action: Action)
    ensures
        action@ == state@.action_for(signal),
{
    match signal {
        AppState::Quit => Action::Quit,
        AppState::Relax(wait) => Action::Sleep(wait),
        AppState::OpenNvim => match state.editor_target() {
            Some(file) => Action::OpenEditor(file.clone()),
            None => match state.descend_target() {
                Some(dir) => Action::Descend(dir.clone()),
                None => Action::Continue,
            },
        },
        AppState::GoForward => match state.descend_target() {
            Some(dir) => Action::Descend(dir.clone()),
            None => Action::Continue,
        },
        AppState::GoBack => match state.ascend_target() {
            Some(dir) => Action::Ascend(dir.clone()),
            None => Action::Continue,
        },
        AppState::KeepOpen => Action::Continue,
        AppState::ToggleMode => Action::Continue,
    }
}

/// Decides whether the loop puts the cursor back to the screen's first
/// position before it acts on `signal`.
pub fn homes_cursor(state: &DrawableState, signal: AppState) -> (home: bool)
    ensures
        home == state@.homes_cursor(signal),
{
    match signal {
        AppState::GoBack => true,
        AppState::GoForward => true,
        AppState::OpenNvim => state.editor_target().is_some() || state.descend_target().is_some(),
        AppState::KeepOpen => state.selected_index.is_some(),
        AppState::ToggleMode => state.selected_index.is_some(),
        AppState::Relax(_) => false,
        AppState::Quit => false,
    }
}

/// Enters the selected directory, given what a walk of it found. Returns
/// whether there was a directory to enter; if not, nothing changes.
pub fn descend(state: &mut DrawableState, walked: &Listing) -> (moved: bool)
    ensures
        moved == old(state)@.descend_target() is Some,
        final(state)@ == old(state)@.descended(walked@),
        old(state)@.wf() ==> final(state)@.wf(),
{
    proof {
        if state@.wf() {
            lemma_descend_keeps_invariant(state@, walked@);
        }
    }
    let target = match state.descend_target() {
        Some(dir) => dir.clone(),
        None => {
            return false;
        },
    };
    let left = state.current_path.clone();
    let ghost before = state.history.deep_view();
    state.history.push(left);
    assert(state.history.deep_view() =~= before.push(left@));
    state.show(target, walked);
    true
}

/// Returns to the directory descended from last, given what a walk of it
/// found. Returns whether there was a place to return to; if not, nothing
/// changes.
pub fn ascend(state: &mut DrawableState, walked: &Listing) -> (moved: bool)
    ensures
        moved == old(state)@.ascend_target() is Some,
        final(state)@ == old(state)@.ascended(walked@),
        old(state)@.wf() ==> final(state)@.wf(),
{
    proof {
        if state@.wf() {
            lemma_ascend_keeps_invariant(state@, walked@);
        }
    }
    let ghost before = state.history.deep_view();
    match state.history.pop() {
        Some(dir) => {
            assert(state.history.deep_view() =~= before.drop_last());
            assert(dir@ == before.last());
            state.show(dir, walked);
            true
        },
        None => {
            assert(state.history.deep_view() =~= before);
            false
        },
    }
}

/// Records how the editor's run ended: a failure to start it goes to the
/// status line, a run clears the line. Either way the editor had the screen,
/// so what was painted before is forgotten and the next frame is painted in
/// full.
pub fn editor_closed(state: &mut DrawableState, frame: &mut FrameState, launched: bool)
    ensures
        final(state)@ == old(state)@.after_editor(launched),
        old(state)@.wf() ==> final(state)@.wf(),
        final(frame)@ == old(frame)@.forgotten(),
{
    state.status = if launched {
        None
    } else {
        Some(ErrorKind::ProcessSpawnFailed)
    };
    frame.reset();
}

/// Opens the browser on `repo_path`. `git_dir` is what was
/// found under the repository directory's name inside `repo_path`, and
/// `walked` what a walk of `repo_path` found. The browser starts only on a
/// repository's root.
pub fn start(repo_path: String, git_dir: Option<ItemKind>, walked: &Listing) -> (opened: Result<
    DrawableState,
    ErrorKind,
>)
    ensures
        opened is Ok <==> git_dir == Some(ItemKind::Directory),
        opened matches Ok(state) ==> state@ == DrawableStateView::opened(repo_path@, walked@)
            && state@.wf(),
        opened matches Err(kind) ==> kind == ErrorKind::NotARepository,
{
    if is_git_repo(git_dir) {
        Ok(DrawableState::new(repo_path, walked))
    } else {
        Err(ErrorKind::NotARepository)
    }
}

/// Showing another place keeps the selection on a listed entry.
pub proof fn lemma_showing_selects_first(state: DrawableStateView, path: Seq<char>, walked: ListingView)
    ensures
        state.showing(path, walked).selection_valid(),
        state.showing(path, walked).items == listed(path, walked.entries),
        state.showing(path, walked).selected_index == first_selection(listed(path, walked.entries)),
{
}

/// A descent keeps the model's invariant, and makes the history longer by
/// exactly one place where it moves at all.
pub proof fn lemma_descend_keeps_invariant(state: DrawableStateView, walked: ListingView)
    requires
        state.wf(),
    ensures
        state.descended(walked).wf(),
        state.descend_target() is Some ==> state.descended(walked).history.len()
            == state.history.len() + 1,
        state.descend_target() is None ==> state.descended(walked) == state,
{
    if let Some(dir) = state.descend_target() {
        let after = state.descended(walked);
        assert(after.history.no_duplicates()) by {
            assert forall|i: int, j: int|
                0 <= i < after.history.len() && 0 <= j < after.history.len() && i != j implies after.history[i]
                != after.history[j] by {
                if i < state.history.len() {
                    assert(state.history.contains(state.history[i]));
                }
                if j < state.history.len() {
                    assert(state.history.contains(state.history[j]));
                }
            }
        }
        assert(!after.history.contains(dir)) by {
            if after.history.contains(dir) {
                let i = choose|i: int| 0 <= i < after.history.len() && after.history[i] == dir;
                if i < state.history.len() {
                    assert(state.history.contains(state.history[i]));
                }
            }
        }
    }
}

/// An ascent keeps the model's invariant, and makes the history shorter by
/// exactly one place where it moves at all.
pub proof fn lemma_ascend_keeps_invariant(state: DrawableStateView, walked: ListingView)
    requires
        state.wf(),
    ensures
        state.ascended(walked).wf(),
        state.ascend_target() is Some ==> state.ascended(walked).history.len()
            == state.history.len() - 1,
        state.ascend_target() is None ==> state.ascended(walked) == state,
{
    if let Some(dir) = state.ascend_target() {
        let after = state.ascended(walked);
        assert(!after.history.contains(dir)) by {
            if after.history.contains(dir) {
                let i = choose|i: int| 0 <= i < after.history.len() && after.history[i] == dir;
                assert(state.history[i] == state.history[state.history.len() - 1]);
            }
        }
    }
}

/// An ascent after a descent is back where the descent started: the same
/// place, the same history, and the selection on the first entry of what is
/// listed there now. The descent made the history longer by exactly one
/// place, the ascent shorter by exactly one.
pub proof fn lemma_ascend_undoes_descend(state: DrawableStateView, down: ListingView, up: ListingView)
    requires
        state.wf(),
        state.descend_target() is Some,
    ensures
        state.descended(down).history.len() == state.history.len() + 1,
        state.descended(down).ascend_target() == Some(state.current_path),
        state.descended(down).ascended(up).history.len() == state.descended(down).history.len() - 1,
        state.descended(down).ascended(up).current_path == state.current_path,
        state.descended(down).ascended(up).history == state.history,
        state.descended(down).ascended(up).items == listed(state.current_path, up.entries),
        state.descended(down).ascended(up).selected_index == first_selection(
            listed(state.current_path, up.entries),
        ),
        listed(state.current_path, up.entries) == state.items ==> state.descended(down).ascended(
            up,
        ).selected_index == Some(0int),
{
    let there = state.descended(down);
    assert(there.history.drop_last() =~= state.history);
}

} // verus!
