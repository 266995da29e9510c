//! The callbacks a widget can be given: one optional callback for each event, the keys
//! bound to callbacks, and the callbacks run when a property changes. The callback types
//! are parameters: `G` takes a context, `O` a context and maybe a mouse position, `M` a
//! context and a mouse position, `D` a drag, and `K` a key press.
use vstd::prelude::*;
use crate::keys::{KeyCode, KeyMap, flags_of, modifier_bits};

verus! {

/// The callbacks of one widget.
pub struct CallbackConfig<G, O, M, D, K> {
    /// When the widget is selected, by keyboard (no position) or by the mouse.
    pub on_select: Option<O>,
    /// When the widget is deselected.
    pub on_deselect: Option<G>,
    /// When the widget is pressed, by keyboard or mouse.
    pub on_press: Option<G>,
    /// When enter is pressed while the widget is selected.
    pub on_keyboard_enter: Option<G>,
    /// When the widget is clicked with the left mouse button.
    pub on_left_mouse_click: Option<M>,
    /// When the widget is clicked with the right mouse button.
    pub on_right_mouse_click: Option<M>,
    /// When the mouse hovers over the widget.
    pub on_hover: Option<M>,
    /// When the mouse drags over the widget.
    pub on_drag: Option<D>,
    /// When the mouse wheel scrolls up over the widget.
    pub on_scroll_up: Option<G>,
    /// When the mouse wheel scrolls down over the widget.
    pub on_scroll_down: Option<G>,
    /// When the value of the widget changes.
    pub on_value_change: Option<G>,
    /// Keys bound to callbacks while the widget is selected.
    pub keymap: KeyMap<K>,
    /// Callbacks run when a property of the widget changes.
    pub property_callbacks: Vec<G>,
}

/// The callback a merge keeps: the new one where there is one, else the old one.
pub open spec fn merged<T>(old: Option<T>, new: Option<T>) -> Option<T> {
    if new is Some { new } else { old }
}

impl<G, O, M, D, K> CallbackConfig<G, O, M, D, K> {
    /// No callback at all: no event callback, no key bound, no property callback.
    pub open spec fn blank(&self) -> bool {
        &&& self.no_callbacks()
        &&& self.keymap.keymap@ == Map::<u64, K>::empty()
    }

    /// No event callback and no property callback (keys may be bound).
    pub open spec fn no_callbacks(&self) -> bool {
        &&& self.on_select is None
        &&& self.on_deselect is None
        &&& self.on_press is None
        &&& self.on_keyboard_enter is None
        &&& self.on_left_mouse_click is None
        &&& self.on_right_mouse_click is None
        &&& self.on_hover is None
        &&& self.on_drag is None
        &&& self.on_scroll_up is None
        &&& self.on_scroll_down is None
        &&& self.on_value_change is None
        &&& self.property_callbacks@.len() == 0
    }

    /// A configuration without callbacks.
    pub fn new() -> (r: Self)
        ensures
            r.blank(),
    {
        CallbackConfig {
            on_select: None,
            on_deselect: None,
            on_press: None,
            on_keyboard_enter: None,
            on_left_mouse_click: None,
            on_right_mouse_click: None,
            on_hover: None,
            on_drag: None,
            on_scroll_up: None,
            on_scroll_down: None,
            on_value_change: None,
            keymap: KeyMap::new(),
            property_callbacks: Vec::new(),
        }
    }

    /// Bind a key held with the given modifiers to a callback (see [`KeyMap::bind_key`]);
    /// nothing else changes.
    pub fn bind_key(&mut self, key: KeyCode, modifiers: Option<Vec<u8>>, func: K)
        ensures
            forall|k: KeyCode, m: u8| #[trigger] final(self).keymap.binding(k, m) == (if k == key
                && m == modifier_bits(flags_of(modifiers)) { Some(func) } else { old(self).keymap.binding(k, m) }),
            *final(self) == (CallbackConfig { keymap: final(self).keymap, ..*old(self) }),
    {
        self.keymap.bind_key(key, modifiers, func);
    }

    /// A configuration with only an on-select callback.
    pub fn from_on_select(func: O) -> (r: Self)
        ensures
            r.on_select == Some(func),
            (CallbackConfig { on_select: None, ..r }).blank(),
    {
        let mut obj = Self::new();
        obj.on_select = Some(func);
        obj
    }

    /// A configuration with only an on-deselect callback.
    pub fn from_on_deselect(func: G) -> (r: Self)
        ensures
            r.on_deselect == Some(func),
            (CallbackConfig { on_deselect: None, ..r }).blank(),
    {
        let mut obj = Self::new();
        obj.on_deselect = Some(func);
        obj
    }

    /// A configuration with only an on-press callback.
    pub fn from_on_press(func: G) -> (r: Self)
        ensures
            r.on_press == Some(func),
            (CallbackConfig { on_press: None, ..r }).blank(),
    {
        let mut obj = Self::new();
        obj.on_press = Some(func);
        obj
    }

    /// A configuration with only an on-keyboard-enter callback.
    pub fn from_on_keyboard_enter(func: G) -> (r: Self)
        ensures
            r.on_keyboard_enter == Some(func),
            (CallbackConfig { on_keyboard_enter: None, ..r }).blank(),
    {
        let mut obj = Self::new();
        obj.on_keyboard_enter = Some(func);
        obj
    }

    /// A configuration with only an on-left-mouse-click callback.
    pub fn from_on_left_mouse_click(func: M) -> (r: Self)
        ensures
            r.on_left_mouse_click == Some(func),
            (CallbackConfig { on_left_mouse_click: None, ..r }).blank(),
    {
        let mut obj = Self::new();
        obj.on_left_mouse_click = Some(func);
        obj
    }

    /// A configuration with only an on-right-mouse-click callback.
    pub fn from_on_right_mouse_click(func: M) -> (r: Self)
        ensures
            r.on_right_mouse_click == Some(func),
            (CallbackConfig { on_right_mouse_click: None, ..r }).blank(),
    {
        let mut obj = Self::new();
        obj.on_right_mouse_click = Some(func);
        obj
    }

    /// A configuration with only an on-scroll-up callback.
    pub fn from_on_scroll_up(func: G) -> (r: Self)
        ensures
            r.on_scroll_up == Some(func),
            (CallbackConfig { on_scroll_up: None, ..r }).blank(),
    {
        let mut obj = Self::new();
        obj.on_scroll_up = Some(func);
        obj
    }

    /// A configuration with only an on-scroll-down callback.
    pub fn from_on_scroll_down(func: G) -> (r: Self)
        ensures
            r.on_scroll_down == Some(func),
            (CallbackConfig { on_scroll_down: None, ..r }).blank(),
    {
        let mut obj = Self::new();
        obj.on_scroll_down = Some(func);
        obj
    }

    /// A configuration with only an on-value-change callback.
    pub fn from_on_value_change(func: G) -> (r: Self)
        ensures
            r.on_value_change == Some(func),
            (CallbackConfig { on_value_change: None, ..r }).blank(),
    {
        let mut obj = Self::new();
        obj.on_value_change = Some(func);
        obj
    }

    /// A configuration with only an on-hover callback.
    pub fn from_on_hover(func: M) -> (r: Self)
        ensures
            r.on_hover == Some(func),
            (CallbackConfig { on_hover: None, ..r }).blank(),
    {
        let mut obj = Self::new();
        obj.on_hover = Some(func);
        obj
    }

    /// A configuration with only an on-drag callback.
    pub fn from_on_drag(func: D) -> (r: Self)
        ensures
            r.on_drag == Some(func),
            (CallbackConfig { on_drag: None, ..r }).blank(),
    {
        let mut obj = Self::new();
        obj.on_drag = Some(func);
        obj
    }

    /// A configuration with only the given key bindings.
    pub fn from_keymap(keymap: KeyMap<K>) -> (r: Self)
        ensures
            r.keymap == keymap,
            r.no_callbacks(),
    {
        let mut obj = Self::new();
        obj.keymap = keymap;
        obj
    }

    /// Merge another configuration into this one: each callback that `other` has replaces
    /// this one's, the others stay; `other`'s key bindings are added, in place of bindings
    /// of the same keys. The property callbacks stay as they are.
    pub fn update_from(&mut self, other: Self)
        ensures
            final(self).on_select == merged(old(self).on_select, other.on_select),
            final(self).on_deselect == merged(old(self).on_deselect, other.on_deselect),
            final(self).on_press == merged(old(self).on_press, other.on_press),
            final(self).on_keyboard_enter == merged(old(self).on_keyboard_enter, other.on_keyboard_enter),
            final(self).on_left_mouse_click == merged(old(self).on_left_mouse_click, other.on_left_mouse_click),
            final(self).on_right_mouse_click == merged(old(self).on_right_mouse_click, other.on_right_mouse_click),
            final(self).on_hover == merged(old(self).on_hover, other.on_hover),
            final(self).on_drag == merged(old(self).on_drag, other.on_drag),
            final(self).on_scroll_up == merged(old(self).on_scroll_up, other.on_scroll_up),
            final(self).on_scroll_down == merged(old(self).on_scroll_down, other.on_scroll_down),
            final(self).on_value_change == merged(old(self).on_value_change, other.on_value_change),
            final(self).keymap.keymap@ == old(self).keymap.keymap@.union_prefer_right(other.keymap.keymap@),
            final(self).property_callbacks == old(self).property_callbacks,
    {
        let CallbackConfig {
            on_select, on_deselect, on_press, on_keyboard_enter, on_left_mouse_click,
            on_right_mouse_click, on_hover, on_drag, on_scroll_up, on_scroll_down, on_value_change,
            keymap, property_callbacks: _,
        } = other;
        if on_value_change.is_some() {
            self.on_value_change = on_value_change;
        }
        if on_deselect.is_some() {
            self.on_deselect = on_deselect;
        }
        if on_select.is_some() {
            self.on_select = on_select;
        }
        if on_press.is_some() {
            self.on_press = on_press;
        }
        if on_left_mouse_click.is_some() {
            self.on_left_mouse_click = on_left_mouse_click;
        }
        if on_right_mouse_click.is_some() {
            self.on_right_mouse_click = on_right_mouse_click;
        }
        if on_scroll_up.is_some() {
            self.on_scroll_up = on_scroll_up;
        }
        if on_scroll_down.is_some() {
            self.on_scroll_down = on_scroll_down;
        }
        if on_keyboard_enter.is_some() {
            self.on_keyboard_enter = on_keyboard_enter;
        }
        if on_hover.is_some() {
            self.on_hover = on_hover;
        }
        if on_drag.is_some() {
            self.on_drag = on_drag;
        }
        self.keymap.extend(keymap);
    }
}

impl<G, O, M, D, K> Default for CallbackConfig<G, O, M, D, K> {
    /// A configuration without callbacks.
    fn default() -> (r: Self)
        ensures
            r.blank(),
    {
        Self::new()
    }
}

} // verus!
