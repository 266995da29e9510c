//! The widgets: each is an id within its layout, a full path, and its runtime state.
use vstd::prelude::*;
use crate::scheduler::SchedulerFrontend;
use crate::definitions::registered_names;
use crate::checkbox::CheckboxState;
use crate::radio_button::RadioButtonState;
use crate::slider::SliderState;
use crate::text_input::TextInputState;
use crate::dropdown::{DropdownState, DroppedDownMenuState};

verus! {

/// A checkbox widget.
pub struct Checkbox {
    /// Identifier of the widget within its layout.
    pub id: String,
    /// Full path of the widget.
    pub path: String,
    /// Runtime state.
    pub state: CheckboxState,
}

impl Checkbox {
    /// An unchecked checkbox with a fresh state registered under `path`.
    pub fn new(id: String, path: String, scheduler: &mut SchedulerFrontend) -> (r: Checkbox)
        ensures
            r.id == id,
            r.path == path,
            r.state.path == path,
            !r.state.active.value,
            r.state.is_fresh(path),
            registered_names(*old(scheduler), *final(scheduler), r.state.property_names()),
    {
        let state = CheckboxState::new(path.clone(), scheduler);
        Checkbox { id, path, state }
    }
}

/// A radio button widget.
pub struct RadioButton {
    /// Identifier of the widget within its layout.
    pub id: String,
    /// Full path of the widget.
    pub path: String,
    /// Runtime state.
    pub state: RadioButtonState,
}

impl RadioButton {
    /// An inactive radio button without a group, with a fresh state registered under `path`.
    pub fn new(id: String, path: String, scheduler: &mut SchedulerFrontend) -> (r: RadioButton)
        ensures
            r.id == id,
            r.path == path,
            r.state.path == path,
            !r.state.active.value,
            r.state.group@.len() == 0,
            r.state.is_fresh(path),
            registered_names(*old(scheduler), *final(scheduler), r.state.property_names()),
    {
        let state = RadioButtonState::new(path.clone(), scheduler);
        RadioButton { id, path, state }
    }
}

/// A slider widget.
pub struct Slider {
    /// Identifier of the widget within its layout.
    pub id: String,
    /// Full path of the widget.
    pub path: String,
    /// Runtime state.
    pub state: SliderState,
}

impl Slider {
    /// A slider at value 0 with a fresh state registered under `path`.
    pub fn new(id: String, path: String, scheduler: &mut SchedulerFrontend) -> (r: Slider)
        ensures
            r.id == id,
            r.path == path,
            r.state.path == path,
            r.state.value.value == 0,
            r.state.is_fresh(path),
            registered_names(*old(scheduler), *final(scheduler), r.state.property_names()),
    {
        let state = SliderState::new(path.clone(), scheduler);
        Slider { id, path, state }
    }
}

/// A text input widget.
pub struct TextInput {
    /// Identifier of the widget within its layout.
    pub id: String,
    /// Full path of the widget.
    pub path: String,
    /// Runtime state.
    pub state: TextInputState,
}

impl TextInput {
    /// An empty text input with a fresh state registered under `path`.
    pub fn new(id: String, path: String, scheduler: &mut SchedulerFrontend) -> (r: TextInput)
        ensures
            r.id == id,
            r.path == path,
            r.state.path == path,
            r.state.text.value@.len() == 0,
            r.state.is_fresh(path),
            registered_names(*old(scheduler), *final(scheduler), r.state.property_names()),
    {
        let state = TextInputState::new(path.clone(), scheduler);
        TextInput { id, path, state }
    }
}

/// A dropdown widget.
pub struct Dropdown {
    /// Identifier of the widget within its layout.
    pub id: String,
    /// Full path of the widget.
    pub path: String,
    /// Runtime state.
    pub state: DropdownState,
}

impl Dropdown {
    /// A dropdown without options with a fresh state registered under `path`.
    pub fn new(id: String, path: String, scheduler: &mut SchedulerFrontend) -> (r: Dropdown)
        ensures
            r.id == id,
            r.path == path,
            r.state.path == path,
            r.state.options@.len() == 0,
            r.state.is_fresh(path),
            registered_names(*old(scheduler), *final(scheduler), r.state.property_names()),
    {
        let state = DropdownState::new(path.clone(), scheduler);
        Dropdown { id, path, state }
    }
}

/// The menu a dropdown opens, as a modal.
pub struct DroppedDownMenu {
    /// Identifier of the widget within its layout.
    pub id: String,
    /// Full path of the widget.
    pub path: String,
    /// Runtime state.
    pub state: DroppedDownMenuState,
}

impl DroppedDownMenu {
    /// A menu with the given state (see `dropdown::open_menu`).
    pub fn new(id: String, path: String, state: DroppedDownMenuState) -> (r: DroppedDownMenu)
        ensures
            r.id == id,
            r.path == path,
            r.state == state,
    {
        DroppedDownMenu { id, path, state }
    }
}

} // verus!
