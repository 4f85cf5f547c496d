//! Keyboard input: the key-repeat filter, the two key bindings, and the
//! navigation state machine that a key press drives.

use vstd::prelude::*;
use crate::ui_state::{DrawableState, DrawableStateView, InputMode};

verus! {

/// What the browser's loop is to do after one input event.
#[derive(Clone, Copy, Debug, PartialEq, Eq, Structural)]
pub enum AppState {
    /// Nothing beyond showing the state again.
    KeepOpen,
    /// Activate the selected entry: edit a file, enter a directory.
    OpenNvim,
    /// Descend into the selected directory.
    GoForward,
    /// Ascend to the directory that was shown before.
    GoBack,
    /// The key binding was switched.
    ToggleMode,
    /// The press came too soon after the last one and was ignored; wait this
    /// many milliseconds before reading input again.
    Relax(u64),
    /// Leave the loop.
    Quit,
}

/// Whether a key went down, is repeating, or went up.
#[derive(Clone, Copy, Debug, PartialEq, Eq, Structural)]
pub enum KeyEventKind {
    Press,
    Repeat,
    Release,
}

/// The keys that the browser tells apart.
#[derive(Clone, Copy, Debug, PartialEq, Eq, Structural)]
pub enum KeyCode {
    Char(char),
    Up,
    Down,
    Left,
    Right,
    Enter,
    Tab,
    Other,
}

/// One keyboard event.
#[derive(Clone, Copy, Debug, PartialEq, Eq, Structural)]
pub struct KeyEvent {
    pub code: KeyCode,
    pub kind: KeyEventKind,
}

/// One event of the terminal.
#[derive(Clone, Copy, Debug, PartialEq, Eq, Structural)]
pub enum Event {
    Key(KeyEvent),
    /// A resize, the mouse, a paste, focus: nothing the browser acts on.
    Other,
}

/// What a key means, whatever physical key stands for it.
#[derive(Clone, Copy, Debug, PartialEq, Eq, Structural)]
pub enum LogicalKey {
    Up,
    Down,
    Enter,
    Back,
    Forward,
    ModeToggle,
    Quit,
    Other,
}

/// The two key bindings: what `code` means while `mode` is in force. `q`
/// and Tab mean the same in both.
pub open spec fn logical_key(mode: InputMode, code: KeyCode) -> LogicalKey {
    match code {
        KeyCode::Char('q') => LogicalKey::Quit,
        KeyCode::Tab => LogicalKey::ModeToggle,
        _ => match mode {
            InputMode::Normal => match code {
                KeyCode::Up => LogicalKey::Up,
                KeyCode::Down => LogicalKey::Down,
                KeyCode::Enter => LogicalKey::Enter,
                KeyCode::Left => LogicalKey::Back,
                KeyCode::Right => LogicalKey::Forward,
                _ => LogicalKey::Other,
            },
            InputMode::Alternate => match code {
                KeyCode::Char('k') => LogicalKey::Up,
                KeyCode::Char('j') => LogicalKey::Down,
                KeyCode::Char('o') => LogicalKey::Enter,
                KeyCode::Char('h') => LogicalKey::Back,
                KeyCode::Char('l') => LogicalKey::Forward,
                _ => LogicalKey::Other,
            },
        },
    }
}

/// Looks `code` up in the binding that `mode` selects.
pub fn decode_key(mode: InputMode, code: KeyCode) -> (key: LogicalKey)
    ensures
        key == logical_key(mode, code),
{
    match code {
        KeyCode::Char('q') => LogicalKey::Quit,
        KeyCode::Tab => LogicalKey::ModeToggle,
        _ => match mode {
            InputMode::Normal => match code {
                KeyCode::Up => LogicalKey::Up,
                KeyCode::Down => LogicalKey::Down,
                KeyCode::Enter => LogicalKey::Enter,
                KeyCode::Left => LogicalKey::Back,
                KeyCode::Right => LogicalKey::Forward,
                _ => LogicalKey::Other,
            },
            InputMode::Alternate => match code {
                KeyCode::Char('k') => LogicalKey::Up,
                KeyCode::Char('j') => LogicalKey::Down,
                KeyCode::Char('o') => LogicalKey::Enter,
                KeyCode::Char('h') => LogicalKey::Back,
                KeyCode::Char('l') => LogicalKey::Forward,
                _ => LogicalKey::Other,
            },
        },
    }
}

/// The time from `last` to `now`; zero if the clock reads earlier than `last`.
pub open spec fn elapsed(last: int, now: int) -> int {
    if now >= last {
        now - last
    } else {
        0
    }
}

impl DrawableStateView {
    /// The state with the selection one entry further up; unchanged at the
    /// first entry and when nothing is selected.
    pub open spec fn moved_up(self) -> DrawableStateView {
        match self.selected_index {
            Some(i) if i > 0 => DrawableStateView { selected_index: Some(i - 1), ..self },
            _ => self,
        }
    }

    /// The state with the selection one entry further down; unchanged at the
    /// last entry and when nothing is selected.
    pub open spec fn moved_down(self) -> DrawableStateView {
        match self.selected_index {
            Some(i) if i + 1 < self.items.len() => DrawableStateView {
                selected_index: Some(i + 1),
                ..self
            },
            _ => self,
        }
    }

    /// Whether a press at `now` comes too soon after the last accepted one.
    /// The first press of a run comes after none, and never too soon.
    pub open spec fn suppresses(self, now: int) -> bool {
        match self.last_key_pressed {
            Some(last) => elapsed(last, now) <= self.key_held_threshold,
            None => false,
        }
    }

    /// How long after `now` presses are still ignored; never negative.
    pub open spec fn remaining_wait(self, now: int) -> int {
        match self.last_key_pressed {
            Some(last) if elapsed(last, now) <= self.key_held_threshold => self.key_held_threshold
                - elapsed(last, now),
            _ => 0,
        }
    }

    /// Whether the key-repeat filter lets an event of this kind through.
    pub open spec fn accepts(self, kind: KeyEventKind, now: int) -> bool {
        match kind {
            KeyEventKind::Press => !self.suppresses(now),
            KeyEventKind::Release => true,
            KeyEventKind::Repeat => false,
        }
    }

    /// The filter's bookkeeping after an event of this kind at `now`: an
    /// accepted press is recorded, a release ends the hold.
    pub open spec fn after_accept(self, kind: KeyEventKind, now: int) -> DrawableStateView {
        match kind {
            KeyEventKind::Press => if self.suppresses(now) {
                self
            } else {
                DrawableStateView { last_key_pressed: Some(now), key_held: true, ..self }
            },
            KeyEventKind::Release => DrawableStateView { key_held: false, ..self },
            KeyEventKind::Repeat => self,
        }
    }

    /// The state after an accepted press of `key`.
    pub open spec fn after_key(self, key: LogicalKey) -> DrawableStateView {
        match key {
            LogicalKey::Up => self.moved_up(),
            LogicalKey::Down => self.moved_down(),
            LogicalKey::ModeToggle => DrawableStateView {
                input_mode: self.input_mode.flipped(),
                ..self
            },
            _ => self,
        }
    }

    /// What an accepted press of `key` asks of the loop.
    pub open spec fn signal_of(self, key: LogicalKey) -> AppState {
        match key {
            LogicalKey::Quit => AppState::Quit,
            LogicalKey::Up => AppState::KeepOpen,
            LogicalKey::Down => AppState::KeepOpen,
            LogicalKey::Enter => AppState::OpenNvim,
            LogicalKey::Back => AppState::GoBack,
            LogicalKey::Forward => if self.descend_target() is Some {
                AppState::GoForward
            } else {
                AppState::KeepOpen
            },
            LogicalKey::ModeToggle => AppState::ToggleMode,
            LogicalKey::Other => AppState::KeepOpen,
        }
    }

    /// The state after `event` arrives at `now`.
    pub open spec fn after_event(self, event: Event, now: int) -> DrawableStateView {
        match event {
            Event::Key(key) => {
                let filtered = self.after_accept(key.kind, now);
                if key.kind == KeyEventKind::Press && self.accepts(key.kind, now) {
                    filtered.after_key(logical_key(self.input_mode, key.code))
                } else {
                    filtered
                }
            },
            Event::Other => self,
        }
    }

    /// What `event`, arriving at `now`, asks of the loop.
    pub open spec fn signal_on(self, event: Event, now: int) -> AppState {
        match event {
            Event::Key(key) => match key.kind {
                KeyEventKind::Press => if self.suppresses(now) {
                    AppState::Relax(self.remaining_wait(now) as u64)
                } else {
                    self.signal_of(logical_key(self.input_mode, key.code))
                },
                _ => AppState::KeepOpen,
            },
            Event::Other => AppState::KeepOpen,
        }
    }
}

/// Moves the selection one entry up, stopping at the first.
pub fn handle_up(state: &mut DrawableState) -> (signal: AppState)
    ensures
        final(state)@ == old(state)@.moved_up(),
        old(state)@.wf() ==> final(state)@.wf(),
        signal == AppState::KeepOpen,
{
    match state.selected_index {
        Some(i) => {
            if i > 0 {
                state.selected_index = Some(i - 1);
            }
        },
        None => {},
    }
    AppState::KeepOpen
}

/// Moves the selection one entry down, stopping at the last.
pub fn handle_down(state: &mut DrawableState) -> (signal: AppState)
    ensures
        final(state)@ == old(state)@.moved_down(),
        old(state)@.wf() ==> final(state)@.wf(),
        signal == AppState::KeepOpen,
{
    match state.selected_index {
        Some(i) => {
            if i < state.items.len() && i + 1 < state.items.len() {
                state.selected_index = Some(i + 1);
            }
        },
        None => {},
    }
    AppState::KeepOpen
}

/// How long, from `now`, presses are still ignored: the threshold less the
/// time since the last accepted press, and zero once that time has passed.
pub fn remaining_wait(state: &DrawableState, now: u64) -> (wait: u64)
    ensures
        wait == state@.remaining_wait(now as int),
        wait <= state@.key_held_threshold,
        wait > 0 ==> state@.suppresses(now as int),
{
    match state.last_key_pressed {
        Some(last) => {
            let passed = time_between(last, now);
            if passed <= state.key_held_threshold {
                state.key_held_threshold - passed
            } else {
                0
            }
        },
        None => 0,
    }
}

/// The time from `last` to `now`; zero if the clock reads earlier than `last`.
pub fn time_between(last: u64, now: u64) -> (passed: u64)
    ensures
        passed == elapsed(last as int, now as int),
{
    if now >= last {
        now - last
    } else {
        0
    }
}

/// The key-repeat filter. A press passes if no press has passed before it,
/// or if more than the threshold has gone by since the last press that
/// passed; it is then recorded as that press. A release always passes and
/// ends the hold; a repeat never passes.
pub fn accept(state: &mut DrawableState, kind: KeyEventKind, now: u64) -> (accepted: bool)
    ensures
        accepted == old(state)@.accepts(kind, now as int),
        final(state)@ == old(state)@.after_accept(kind, now as int),
        old(state)@.wf() ==> final(state)@.wf(),
{
    match kind {
        KeyEventKind::Press => {
            let too_soon = match state.last_key_pressed {
                Some(last) => time_between(last, now) <= state.key_held_threshold,
                None => false,
            };
            if too_soon {
                false
            } else {
                state.last_key_pressed = Some(now);
                state.key_held = true;
                true
            }
        },
        KeyEventKind::Release => {
            state.key_held = false;
            true
        },
        KeyEventKind::Repeat => false,
    }
}

/// One step of the navigation state machine, on a press that the filter
/// let through and the binding has decoded.
pub fn step(state: &mut DrawableState, key: LogicalKey) -> (signal: AppState)
    ensures
        final(state)@ == old(state)@.after_key(key),
        old(state)@.wf() ==> final(state)@.wf(),
        signal == old(state)@.signal_of(key),
{
    match key {
        LogicalKey::Quit => AppState::Quit,
        LogicalKey::Up => handle_up(state),
        LogicalKey::Down => handle_down(state),
        LogicalKey::Enter => AppState::OpenNvim,
        LogicalKey::Back => AppState::GoBack,
        LogicalKey::Forward => {
            if state.descend_target().is_some() {
                AppState::GoForward
            } else {
                AppState::KeepOpen
            }
        },
        LogicalKey::ModeToggle => {
            state.input_mode = state.input_mode.toggle();
            AppState::ToggleMode
        },
        LogicalKey::Other => AppState::KeepOpen,
    }
}

/// Takes one terminal event, read at time `now`, through the key-repeat
/// filter and the state machine, and says what the loop is to do next.
pub fn handle_events(state: &mut DrawableState, event: Event, now: u64) -> (signal: AppState)
    ensures
        final(state)@ == old(state)@.after_event(event, now as int),
        old(state)@.wf() ==> final(state)@.wf(),
        signal == old(state)@.signal_on(event, now as int),
{
    match event {
        Event::Key(key) => match key.kind {
            KeyEventKind::Press => {
                let wait = remaining_wait(state, now);
                if accept(state, KeyEventKind::Press, now) {
                    let logical = decode_key(state.input_mode, key.code);
                    step(state, logical)
                } else {
                    AppState::Relax(wait)
                }
            },
            KeyEventKind::Release => {
                accept(state, KeyEventKind::Release, now);
                AppState::KeepOpen
            },
            KeyEventKind::Repeat => AppState::KeepOpen,
        },
        Event::Other => AppState::KeepOpen,
    }
}

/// The state after the presses `keys`, each let through by the filter, in order.
pub open spec fn after_keys(state: DrawableStateView, keys: Seq<LogicalKey>) -> DrawableStateView
    decreases keys.len(),
{
    if keys.len() == 0 {
        state
    } else {
        after_keys(state, keys.drop_last()).after_key(keys.last())
    }
}

/// The state after the events `events`, each with the time it arrived at, in order.
pub open spec fn after_events(state: DrawableStateView, events: Seq<(Event, int)>) -> DrawableStateView
    decreases events.len(),
{
    if events.len() == 0 {
        state
    } else {
        after_events(state, events.drop_last()).after_event(events.last().0, events.last().1)
    }
}

/// No press changes what is listed, where the browser is or how it got
/// there, and every press keeps the selection on a listed entry.
pub proof fn lemma_key_keeps_invariant(state: DrawableStateView, key: LogicalKey)
    ensures
        state.after_key(key).items == state.items,
        state.after_key(key).current_path == state.current_path,
        state.after_key(key).history == state.history,
        state.selection_valid() ==> state.after_key(key).selection_valid(),
        state.wf() ==> state.after_key(key).wf(),
{
}

/// No event changes what is listed, where the browser is or how it got
/// there, and every event keeps the model's invariant.
pub proof fn lemma_event_keeps_invariant(state: DrawableStateView, event: Event, now: int)
    ensures
        state.after_event(event, now).items == state.items,
        state.after_event(event, now).current_path == state.current_path,
        state.after_event(event, now).history == state.history,
        state.selection_valid() ==> state.after_event(event, now).selection_valid(),
        state.wf() ==> state.after_event(event, now).wf(),
{
}

/// Whatever sequence of Up and Down presses arrives, the selection stays on
/// a listed entry, between the first and the last; and while nothing is
/// listed, nothing is selected.
pub proof fn lemma_moves_keep_selection_in_range(state: DrawableStateView, keys: Seq<LogicalKey>)
    requires
        state.selection_valid(),
        forall|k: int| 0 <= k < keys.len() ==> keys[k] == LogicalKey::Up || keys[k] == LogicalKey::Down,
    ensures
        after_keys(state, keys).items == state.items,
        after_keys(state, keys).selection_valid(),
        state.items.len() > 0 ==> (after_keys(state, keys).selected_index matches Some(i) && 0 <= i
            <= state.items.len() - 1),
        state.items.len() == 0 ==> after_keys(state, keys).selected_index is None,
    decreases keys.len(),
{
    if keys.len() > 0 {
        lemma_moves_keep_selection_in_range(state, keys.drop_last());
        lemma_key_keeps_invariant(after_keys(state, keys.drop_last()), keys.last());
    }
}

/// Whatever sequence of events arrives, at whatever times, the model's
/// invariant holds after it, and what is listed has not changed.
pub proof fn lemma_events_keep_invariant(state: DrawableStateView, events: Seq<(Event, int)>)
    requires
        state.wf(),
    ensures
        after_events(state, events).wf(),
        after_events(state, events).items == state.items,
        after_events(state, events).current_path == state.current_path,
        after_events(state, events).history == state.history,
    decreases events.len(),
{
    if events.len() > 0 {
        lemma_events_keep_invariant(state, events.drop_last());
        lemma_event_keeps_invariant(
            after_events(state, events.drop_last()),
            events.last().0,
            events.last().1,
        );
    }
}

/// While nothing is listed, an Up or Down press changes nothing and asks
/// nothing of the loop.
pub proof fn lemma_moves_in_empty_listing_change_nothing(state: DrawableStateView, key: LogicalKey)
    requires
        state.selection_valid(),
        state.items.len() == 0,
        key == LogicalKey::Up || key == LogicalKey::Down,
    ensures
        state.after_key(key) == state,
        state.signal_of(key) == AppState::KeepOpen,
{
}

/// The filter lets the first press of a run through, whenever it comes.
/// After that it lets a press through exactly if more than the threshold has
/// passed since the press it let through last. A press it holds back leaves
/// the state as it is; one it lets through becomes the last press.
pub proof fn lemma_press_filter(state: DrawableStateView, now: int)
    requires
        0 <= state.key_held_threshold,
    ensures
        state.last_key_pressed is None ==> state.accepts(KeyEventKind::Press, now),
        state.last_key_pressed matches Some(last) ==> (now - last <= state.key_held_threshold
            <==> !state.accepts(KeyEventKind::Press, now)),
        !state.accepts(KeyEventKind::Press, now) ==> state.after_accept(KeyEventKind::Press, now)
            == state,
        state.accepts(KeyEventKind::Press, now) ==> state.after_accept(
            KeyEventKind::Press,
            now,
        ).last_key_pressed == Some(now),
        0 <= state.remaining_wait(now) <= state.key_held_threshold,
{
}

} // verus!
