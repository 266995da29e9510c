//! Key presses sent to widgets: which handler a key goes to, and what the widget owes its
//! callbacks afterwards. Running the callbacks, which are the user's code, is the caller's
//! part.
use vstd::prelude::*;
use crate::keys::{KeyCode, KeyMap};
use crate::scheduler::SchedulerFrontend;
use crate::text_input::{TextInputState, TextField, backspace_defined, backspace_step, char_defined, char_step,
    delete_defined, delete_step, left_defined, left_step, right_defined, right_step, redraw_requested, handle_backspace,
    handle_char, handle_delete, handle_left, handle_right};
use crate::slider::{SliderState, with_value, left_value, right_value};
use crate::dropdown::{DroppedDownMenuState, DropdownState, option_count, with_row, row_up, row_down,
    dropped_down_options, handle_up, handle_down, handle_enter};
use crate::scheduler::{names, TaskAction};
use crate::button::{ButtonState, end_flash, flash_ended};
use crate::pixel::Coordinates;
use crate::geometry::effective_size_of;
use crate::strings::{byte_count, byte_len};

verus! {

/// What a widget made of a key press.
#[derive(Clone, Copy, Debug, PartialEq, Eq, Structural)]
pub enum KeyOutcome {
    /// The widget handled the key; when its value changed, its value change callback is due.
    Handled { value_changed: bool },
    /// The key is bound in the widget's key map: the bound callback is due.
    Bound,
    /// The widget does not take the key.
    Ignored,
}

/// Whether a text input can take a key press without running out of range.
pub open spec fn text_input_key_defined(s: TextInputState, key: KeyCode) -> bool {
    match key {
        KeyCode::Backspace => backspace_defined(s.field(), s.width()),
        KeyCode::Delete => delete_defined(s.field(), s.width()),
        KeyCode::Left => left_defined(s.field(), s.width()),
        KeyCode::Right => right_defined(s.field(), s.width()),
        KeyCode::Char(c) => char_defined(s.field(), s.width(), s.max_length.value as nat),
        _ => true,
    }
}

/// A text input after an edit that may leave it as it was: `None` leaves it unchanged.
pub open spec fn edited_or_kept(old: TextInputState, new: TextInputState, step: Option<TextField>) -> bool {
    match step {
        Some(f) => TextInputState::edited(old, new, f),
        None => new == old,
    }
}

/// A key press on a text input: backspace and delete remove a character, the arrows move
/// the cursor, a character is typed in; other keys are not taken. The value change callback
/// is due when the text changed.
pub fn text_input_key(state: &mut TextInputState, key: KeyCode, scheduler: &mut SchedulerFrontend)
    -> (r: KeyOutcome)
    requires
        text_input_key_defined(*old(state), key),
    ensures
        match key {
            KeyCode::Backspace => {
                &&& edited_or_kept(*old(state), *final(state), backspace_step(old(state).field(), old(state).width()))
                &&& redraw_requested(*old(scheduler), *final(scheduler), old(state).path,
                    backspace_step(old(state).field(), old(state).width()) is Some)
            },
            KeyCode::Delete => {
                &&& edited_or_kept(*old(state), *final(state), delete_step(old(state).field(), old(state).width()))
                &&& redraw_requested(*old(scheduler), *final(scheduler), old(state).path,
                    delete_step(old(state).field(), old(state).width()) is Some)
            },
            KeyCode::Left => {
                &&& TextInputState::edited(*old(state), *final(state), left_step(old(state).field(), old(state).width()))
                &&& redraw_requested(*old(scheduler), *final(scheduler), old(state).path, true)
            },
            KeyCode::Right => {
                &&& TextInputState::edited(*old(state), *final(state), right_step(old(state).field(), old(state).width()))
                &&& redraw_requested(*old(scheduler), *final(scheduler), old(state).path, true)
            },
            KeyCode::Char(c) => {
                &&& TextInputState::edited(*old(state), *final(state), char_step(old(state).field(), c,
                    old(state).width(), old(state).max_length.value as nat))
                &&& redraw_requested(*old(scheduler), *final(scheduler), old(state).path,
                    byte_count(old(state).field().text) < old(state).max_length.value)
            },
            _ => *final(state) == *old(state) && *final(scheduler) == *old(scheduler),
        },
        r == (match key {
            KeyCode::Backspace | KeyCode::Delete | KeyCode::Char(_) =>
                KeyOutcome::Handled { value_changed: final(state).text.value@ != old(state).text.value@ },
            KeyCode::Left | KeyCode::Right => KeyOutcome::Handled { value_changed: false },
            _ => KeyOutcome::Ignored,
        }),
{
    let before = state.text.value.clone();
    match key {
        KeyCode::Backspace => {
            handle_backspace(state, scheduler);
            KeyOutcome::Handled { value_changed: !(state.text.value == before) }
        },
        KeyCode::Delete => {
            handle_delete(state, scheduler);
            KeyOutcome::Handled { value_changed: !(state.text.value == before) }
        },
        KeyCode::Left => {
            handle_left(state, scheduler);
            KeyOutcome::Handled { value_changed: false }
        },
        KeyCode::Right => {
            handle_right(state, scheduler);
            KeyOutcome::Handled { value_changed: false }
        },
        KeyCode::Char(c) => {
            handle_char(state, c, scheduler);
            KeyOutcome::Handled { value_changed: !(state.text.value == before) }
        },
        _ => KeyOutcome::Ignored,
    }
}

/// A key press on a slider: the left arrow lowers the value by a step and the right arrow
/// raises it (the value change callback is due when the value moved); another key bound in
/// the slider's key map is due its callback; other keys are not taken.
pub fn slider_key<F>(state: &mut SliderState, key: KeyCode, modifiers: u8, keymap: &KeyMap<F>,
    scheduler: &mut SchedulerFrontend) -> (r: KeyOutcome)
    requires
        key == KeyCode::Left ==> old(state).value.value == old(state).minimum.value
            || old(state).value.value >= old(state).step.value,
        key == KeyCode::Right ==> old(state).value.value == old(state).maximum.value
            || old(state).value.value + old(state).step.value <= usize::MAX,
    ensures
        key == KeyCode::Left ==> {
            &&& *final(state) == with_value(*old(state), left_value(*old(state)))
            &&& r == KeyOutcome::Handled { value_changed: old(state).value.value != old(state).minimum.value }
        },
        key == KeyCode::Right ==> {
            &&& *final(state) == with_value(*old(state), right_value(*old(state)))
            &&& r == KeyOutcome::Handled { value_changed: old(state).value.value != old(state).maximum.value }
        },
        (key == KeyCode::Left || key == KeyCode::Right) && r == (KeyOutcome::Handled { value_changed: true }) ==> {
            &&& final(scheduler).widgets_to_update@ == old(scheduler).widgets_to_update@.push(old(state).path)
            &&& *final(scheduler) == (SchedulerFrontend { widgets_to_update: final(scheduler).widgets_to_update,
                ..*old(scheduler) })
        },
        (key == KeyCode::Left || key == KeyCode::Right) && r == (KeyOutcome::Handled { value_changed: false })
            ==> *final(scheduler) == *old(scheduler),
        key != KeyCode::Left && key != KeyCode::Right ==> {
            &&& *final(state) == *old(state)
            &&& *final(scheduler) == *old(scheduler)
            &&& r == (if keymap.lookup(key, modifiers) is Some { KeyOutcome::Bound } else { KeyOutcome::Ignored })
        },
{
    if key == KeyCode::Left {
        let changed = crate::slider::handle_left(state, scheduler);
        KeyOutcome::Handled { value_changed: changed }
    } else if key == KeyCode::Right {
        let changed = crate::slider::handle_right(state, scheduler);
        KeyOutcome::Handled { value_changed: changed }
    } else if keymap.contains(key, modifiers) {
        KeyOutcome::Bound
    } else {
        KeyOutcome::Ignored
    }
}

/// A key press on an open dropdown menu: enter chooses the selected option for the dropdown
/// (its value change callback is then due), the arrows move the selection up or down, round
/// the ends; other keys are not taken.
pub fn menu_key(menu: &mut DroppedDownMenuState, dropdown: &mut DropdownState, key: KeyCode) -> (r: KeyOutcome)
    requires
        key == KeyCode::Enter ==> old(menu).dropped_down_selected_row < dropped_down_options(
            old(menu).choice.value@, old(menu).allow_none.value, names(old(menu).options@)).len(),
        key == KeyCode::Up || key == KeyCode::Down ==> 0 < option_count(old(menu).options@.len(),
            old(menu).allow_none.value) <= usize::MAX,
        key == KeyCode::Down ==> old(menu).dropped_down_selected_row < usize::MAX,
    ensures
        key == KeyCode::Enter ==> {
            &&& *final(menu) == *old(menu)
            &&& *final(dropdown) == (DropdownState { choice: crate::scheduler::EzProperty {
                name: old(dropdown).choice.name, value: final(dropdown).choice.value }, ..*old(dropdown) })
            &&& final(dropdown).choice.value@ == dropped_down_options(old(menu).choice.value@,
                old(menu).allow_none.value, names(old(menu).options@))[old(menu).dropped_down_selected_row as int]
            &&& r == KeyOutcome::Handled { value_changed: true }
        },
        key == KeyCode::Up ==> {
            &&& *final(menu) == with_row(*old(menu), row_up(old(menu).dropped_down_selected_row as nat,
                option_count(old(menu).options@.len(), old(menu).allow_none.value)) as usize)
            &&& *final(dropdown) == *old(dropdown)
            &&& r == KeyOutcome::Handled { value_changed: false }
        },
        key == KeyCode::Down ==> {
            &&& *final(menu) == with_row(*old(menu), row_down(old(menu).dropped_down_selected_row as nat,
                option_count(old(menu).options@.len(), old(menu).allow_none.value)) as usize)
            &&& *final(dropdown) == *old(dropdown)
            &&& r == KeyOutcome::Handled { value_changed: false }
        },
        key != KeyCode::Enter && key != KeyCode::Up && key != KeyCode::Down ==> {
            &&& *final(menu) == *old(menu)
            &&& *final(dropdown) == *old(dropdown)
            &&& r == KeyOutcome::Ignored
        },
{
    if key == KeyCode::Enter {
        handle_enter(menu, dropdown);
        KeyOutcome::Handled { value_changed: true }
    } else if key == KeyCode::Down {
        handle_down(menu);
        KeyOutcome::Handled { value_changed: false }
    } else if key == KeyCode::Up {
        handle_up(menu);
        KeyOutcome::Handled { value_changed: false }
    } else {
        KeyOutcome::Ignored
    }
}

/// Where a text input puts its cursor when it is selected: under the mouse, but not past the
/// end of the text (its length in bytes); by keyboard, at the end of the text, or at the last
/// column when the text fills the input.
pub open spec fn selection_cursor(s: TextInputState, mouse: Option<Coordinates>) -> Coordinates {
    let len = byte_count(s.text.value@);
    match mouse {
        Some(p) => Coordinates { x: if p.x > len { len as usize } else { p.x }, y: p.y },
        None => {
            let w = effective_size_of(s.size, s.border_config, s.padding).width;
            Coordinates { x: if len > w - 1 { (w - 1) as usize } else { len as usize }, y: s.position.y.value }
        },
    }
}

/// Select a text input, by the mouse at `mouse` or by keyboard: it is selected and its
/// cursor moves (see [`selection_cursor`]). A new blinking of the cursor starts unless the
/// mouse selected it while its cursor was blinking already; then the cursor is shown at once.
/// Returns whether the blinking starts (the caller then runs [`cursor_blink_tick`] every
/// tenth of a second).
pub fn select_text_input(state: &mut TextInputState, mouse: Option<Coordinates>, scheduler: &mut SchedulerFrontend)
    -> (start_blink: bool)
    requires
        mouse is None ==> effective_size_of(old(state).size, old(state).border_config, old(state).padding).width >= 1,
        byte_count(old(state).text.value@) <= usize::MAX,
    ensures
        start_blink == (mouse is None || !old(state).active_blink_task),
        *final(state) == (TextInputState {
            selected: true,
            cursor_pos: selection_cursor(*old(state), mouse),
            active_blink_task: if start_blink { true } else { old(state).active_blink_task },
            blink_switch: if start_blink { old(state).blink_switch } else { true },
            ..*old(state)
        }),
        final(scheduler).widgets_to_update@ == (if start_blink {
            old(scheduler).widgets_to_update@.push(old(state).path).push(old(state).path)
        } else {
            old(scheduler).widgets_to_update@.push(old(state).path)
        }),
        *final(scheduler) == (SchedulerFrontend { widgets_to_update: final(scheduler).widgets_to_update,
            ..*old(scheduler) }),
{
    state.selected = true;
    state.update(scheduler);
    let len = byte_len(&state.text.value);
    match mouse {
        Some(p) => {
            let target = Coordinates { x: if p.x > len { len } else { p.x }, y: p.y };
            if !state.active_blink_task {
                state.cursor_pos = target;
                state.active_blink_task = true;
                state.update(scheduler);
                true
            } else {
                state.cursor_pos = target;
                state.blink_switch = true;
                false
            }
        },
        None => {
            let w = state.get_effective_size().width;
            let target = Coordinates { x: if len > w - 1 { w - 1 } else { len }, y: state.position.y.value };
            state.cursor_pos = target;
            state.active_blink_task = true;
            state.update(scheduler);
            true
        },
    }
}

/// One tick of a text input's cursor blinking, with `counter` the ticks since the cursor last
/// switched: when the input is no longer selected the cursor is hidden and the blinking
/// stops; else the cursor switches every fourth tick. Returns whether the blinking goes on.
pub fn cursor_blink_tick(state: &mut TextInputState, counter: &mut usize, scheduler: &mut SchedulerFrontend)
    -> (keep: bool)
    requires
        *old(counter) <= 3,
    ensures
        keep == old(state).selected,
        *final(counter) <= 3,
        !old(state).selected ==> {
            &&& *final(state) == (TextInputState { blink_switch: false, active_blink_task: false, ..*old(state) })
            &&& *final(counter) == *old(counter)
            &&& final(scheduler).widgets_to_update@ == old(scheduler).widgets_to_update@.push(old(state).path)
        },
        old(state).selected && *old(counter) >= 3 ==> {
            &&& *final(state) == (TextInputState { blink_switch: !old(state).blink_switch, ..*old(state) })
            &&& *final(counter) == 0
            &&& final(scheduler).widgets_to_update@ == old(scheduler).widgets_to_update@.push(old(state).path)
        },
        old(state).selected && *old(counter) < 3 ==> {
            &&& *final(state) == *old(state)
            &&& *final(counter) == *old(counter) + 1
            &&& *final(scheduler) == *old(scheduler)
        },
        *final(scheduler) == (SchedulerFrontend { widgets_to_update: final(scheduler).widgets_to_update,
            ..*old(scheduler) }),
{
    if !state.selected {
        state.blink_switch = false;
        state.active_blink_task = false;
        state.update(scheduler);
        return false;
    }
    if *counter >= 3 {
        *counter = 0;
        state.blink_switch = !state.blink_switch;
        state.update(scheduler);
    } else {
        *counter = *counter + 1;
    }
    true
}

/// The path of the widget a task concerns.
pub open spec fn task_path(action: TaskAction) -> Seq<char> {
    match action {
        TaskAction::EndFlash(path) => path@,
    }
}

/// Run a scheduled task on the buttons it may concern. Ending a flash stops the flash of the
/// first button at the task's path and asks for its redraw; returns where that button is.
/// When no button has that path (it was removed meanwhile), nothing happens.
pub fn run_task(action: &TaskAction, buttons: &mut Vec<ButtonState>, scheduler: &mut SchedulerFrontend)
    -> (r: Option<usize>)
    ensures
        match r {
            None => {
                &&& forall|k: int| 0 <= k < old(buttons)@.len() ==> old(buttons)@[k].path@ != task_path(*action)
                &&& final(buttons)@ == old(buttons)@
                &&& *final(scheduler) == *old(scheduler)
            },
            Some(k) => {
                &&& k < old(buttons)@.len()
                &&& old(buttons)@[k as int].path@ == task_path(*action)
                &&& forall|j: int| 0 <= j < k ==> old(buttons)@[j].path@ != task_path(*action)
                &&& final(buttons)@ == old(buttons)@.update(k as int, flash_ended(old(buttons)@[k as int]))
                &&& final(scheduler).widgets_to_update@ == old(scheduler).widgets_to_update@.push(
                    old(buttons)@[k as int].path)
                &&& *final(scheduler) == (SchedulerFrontend { widgets_to_update:
                    final(scheduler).widgets_to_update, ..*old(scheduler) })
            },
        },
{
    match action {
        TaskAction::EndFlash(path) => {
            let mut i: usize = 0;
            while i < buttons.len()
                invariant
                    i <= buttons@.len(),
                    buttons@ == old(buttons)@,
                    *scheduler == *old(scheduler),
                    path@ == task_path(*action),
                    forall|j: int| 0 <= j < i ==> buttons@[j].path@ != path@,
                decreases buttons@.len() - i,
            {
                if buttons[i].path == *path {
                    let mut b = buttons.remove(i);
                    end_flash(&mut b, scheduler);
                    buttons.insert(i, b);
                    assert(buttons@ =~= old(buttons)@.update(i as int, flash_ended(old(buttons)@[i as int])));
                    return Some(i);
                }
                i = i + 1;
            }
            None
        },
    }
}

} // verus!
