//! Behaviour shared by all widget states: the colors a widget is drawn in depending on
//! whether it is disabled or selected, and the traits for selection and forced redraws.
use vstd::prelude::*;
use crate::pixel::Color;
use crate::definitions::ColorConfig;

verus! {

/// The foreground and background colors a widget is drawn in: the disabled colors when it is
/// disabled, else the selection colors when it is selected, else its normal colors.
pub open spec fn context_colors(disabled: bool, selected: bool, colors: ColorConfig) -> (Color, Color) {
    if disabled {
        (colors.disabled_fg_color.value, colors.disabled_bg_color.value)
    } else if selected {
        (colors.selection_fg_color.value, colors.selection_bg_color.value)
    } else {
        (colors.fg_color.value, colors.bg_color.value)
    }
}

/// Get the colors a widget is drawn in, given whether it is disabled and selected.
pub fn get_context_colors(disabled: bool, selected: bool, colors: &ColorConfig) -> (r: (Color, Color))
    ensures
        r == context_colors(disabled, selected, *colors),
{
    let fg = if disabled {
        colors.get_disabled_fg_color()
    } else if selected {
        colors.get_selection_fg_color()
    } else {
        colors.get_fg_color()
    };
    let bg = if disabled {
        colors.get_disabled_bg_color()
    } else if selected {
        colors.get_selection_bg_color()
    } else {
        colors.get_bg_color()
    };
    (fg, bg)
}

/// Managing the selection of a state. Only implemented by widgets that can be selected.
pub trait SelectableState {
    /// Whether the widget is selected.
    spec fn is_selected(&self) -> bool;

    /// Select or deselect the widget.
    fn set_selected(&mut self, state: bool)
        ensures
            final(self).is_selected() == state;

    /// Whether the widget is selected.
    fn get_selected(&self) -> (r: bool)
        ensures
            r == self.is_selected();
}

/// Managing the selection of a widget state. Only implemented by widgets that can be
/// selected.
pub trait SelectableWidgetState {
    /// Whether the widget is selected.
    spec fn is_selected(&self) -> bool;

    /// Select or deselect the widget.
    fn set_selected(&mut self, state: bool)
        ensures
            final(self).is_selected() == state;

    /// Whether the widget is selected.
    fn get_selected(&self) -> (r: bool)
        ensures
            r == self.is_selected();
}

/// Managing the forced redraw of a widget state.
pub trait RedrawWidgetState {
    /// Whether the next frame redraws the whole screen.
    spec fn redraw_forced(&self) -> bool;

    /// Set whether the next frame redraws the whole screen.
    fn set_force_redraw(&mut self, state: bool)
        ensures
            final(self).redraw_forced() == state;

    /// Whether the next frame redraws the whole screen.
    fn get_force_redraw(&self) -> (r: bool)
        ensures
            r == self.redraw_forced();
}

} // verus!
