//! Checkbox widget state: checking and unchecking.
use vstd::prelude::*;
use crate::pixel::{Color, Coordinates, IsizeCoordinates, Size};
use crate::scheduler::{EzProperty, SchedulerFrontend, join_name};
use crate::definitions::{StateCoordinates, StateSize, InfiniteSize, AutoScale, Padding,
    HorizontalAlignment, VerticalAlignment, BorderConfig, ColorConfig, registered_names,
    new_coordinates, new_size, new_auto_scale, new_padding, new_border, new_colors};
use crate::geometry::{effective_size_of, get_effective_size, outer_length, outer_length_of};
use crate::state::{context_colors, get_context_colors, SelectableState, SelectableWidgetState};

verus! {
/// Runtime state of a checkbox widget.
#[derive(Clone, Debug)]
pub struct CheckboxState {
    /// Path of the widget this state belongs to.
    pub path: String,
    /// Position relative to the parent layout.
    pub position: StateCoordinates,
    /// Absolute position on screen.
    pub absolute_position: IsizeCoordinates,
    /// Size of the widget.
    pub size: StateSize,
    /// Whether the widget may grow without bound on each axis.
    pub infinite_size: InfiniteSize,
    /// Whether the size follows the content.
    pub auto_scale: AutoScale,
    /// Space left around the widget.
    pub padding: Padding,
    /// Horizontal alignment.
    pub halign: EzProperty<HorizontalAlignment>,
    /// Vertical alignment.
    pub valign: EzProperty<VerticalAlignment>,
    /// Whether the checkbox is checked.
    pub active: EzProperty<bool>,
    /// Whether the widget cannot be interacted with.
    pub disabled: EzProperty<bool>,
    /// Order in which the widget is selected by keyboard.
    pub selection_order: EzProperty<usize>,
    /// Border of the widget.
    pub border_config: BorderConfig,
    /// Colors of the widget.
    pub colors: ColorConfig,
    /// Whether the widget is selected.
    pub selected: bool,
}

impl CheckboxState {
    /// A state for the widget at `path`, registering its properties under that path.
    pub fn new(path: String, scheduler: &mut SchedulerFrontend) -> (r: CheckboxState)
        ensures
            r.path == path,
            r.position.x.value == 0,
            r.position.y.value == 0,
            r.position.x.name@ == path@ + "/x"@,
            r.position.y.name@ == path@ + "/y"@,
            r.absolute_position == (IsizeCoordinates { x: 0, y: 0 }),
            r.size.width.value == 0,
            r.size.height.value == 0,
            r.size.width.name@ == path@ + "/width"@,
            r.size.height.name@ == path@ + "/height"@,
            r.infinite_size == (InfiniteSize { width: false, height: false }),
            r.auto_scale.auto_scale_width.value == false,
            r.auto_scale.auto_scale_height.value == false,
            r.padding.padding_top.value == 0,
            r.padding.padding_bottom.value == 0,
            r.padding.padding_left.value == 0,
            r.padding.padding_right.value == 0,
            r.halign.value == HorizontalAlignment::Left,
            r.halign.name@ == path@ + "/halign"@,
            r.valign.value == VerticalAlignment::Top,
            r.valign.name@ == path@ + "/valign"@,
            r.active.value == false,
            r.active.name@ == path@ + "/active"@,
            r.disabled.value == false,
            r.disabled.name@ == path@ + "/disabled"@,
            r.selection_order.value == 0,
            r.selection_order.name@ == path@ + "/selection_order"@,
            r.border_config.border.value == false,
            !r.selected,
            r.is_fresh(path),
            registered_names(*old(scheduler), *final(scheduler), r.property_names()),
    {
        let ghost start = *scheduler;
        let position: StateCoordinates = StateCoordinates::new(0, 0, path.clone(), scheduler);
        let absolute_position: IsizeCoordinates = IsizeCoordinates::new(0, 0);
        let size: StateSize = StateSize::new(0, 0, path.clone(), scheduler);
        let infinite_size: InfiniteSize = InfiniteSize { width: false, height: false };
        let auto_scale: AutoScale = AutoScale::new(false, false, path.clone(), scheduler);
        let padding: Padding = Padding::new(0, 0, 0, 0, path.clone(), scheduler);
        let halign: EzProperty<HorizontalAlignment> = scheduler.new_property(join_name(&path, "/halign"), HorizontalAlignment::Left);
        let valign: EzProperty<VerticalAlignment> = scheduler.new_property(join_name(&path, "/valign"), VerticalAlignment::Top);
        let active: EzProperty<bool> = scheduler.new_property(join_name(&path, "/active"), false);
        let disabled: EzProperty<bool> = scheduler.new_property(join_name(&path, "/disabled"), false);
        let selection_order: EzProperty<usize> = scheduler.new_property(join_name(&path, "/selection_order"), 0);
        let border_config: BorderConfig = BorderConfig::new(false, path.clone(), scheduler);
        let colors: ColorConfig = ColorConfig::new(path.clone(), scheduler);
        let selected: bool = false;
        let r = CheckboxState { path, position, absolute_position, size, infinite_size, auto_scale, padding, halign, valign, active, disabled, selection_order, border_config, colors, selected };
        assert(scheduler.properties@ =~= start.properties@ + seq![r.position.x.name, r.position.y.name, r.size.width.name, r.size.height.name, r.auto_scale.auto_scale_width.name, r.auto_scale.auto_scale_height.name, r.padding.padding_top.name, r.padding.padding_bottom.name, r.padding.padding_left.name, r.padding.padding_right.name, r.halign.name, r.valign.name, r.active.name, r.disabled.name, r.selection_order.name, r.border_config.border.name, r.border_config.horizontal_symbol.name, r.border_config.vertical_symbol.name, r.border_config.top_left_symbol.name, r.border_config.top_right_symbol.name, r.border_config.bottom_left_symbol.name, r.border_config.bottom_right_symbol.name, r.colors.fg_color.name, r.colors.bg_color.name, r.colors.selection_fg_color.name, r.colors.selection_bg_color.name, r.colors.disabled_fg_color.name, r.colors.disabled_bg_color.name, r.colors.active_fg_color.name, r.colors.active_bg_color.name, r.colors.flash_fg_color.name, r.colors.flash_bg_color.name, r.colors.tab_fg_color.name, r.colors.tab_bg_color.name, r.colors.tab_border_fg_color.name, r.colors.tab_border_bg_color.name, r.colors.filler_fg_color.name, r.colors.filler_bg_color.name, r.colors.border_fg_color.name, r.colors.border_bg_color.name, r.colors.cursor_color.name]);
        r
    }

    /// Whether this is the state [`CheckboxState::new`] builds for the widget at `path`.
    pub open spec fn is_fresh(&self, path: String) -> bool {
        &&& self.path == path
        &&& self.position.x.value == 0
        &&& self.position.y.value == 0
        &&& self.position.x.name@ == path@ + "/x"@
        &&& self.position.y.name@ == path@ + "/y"@
        &&& new_coordinates(self.position, 0, 0, path@)
        &&& self.absolute_position == (IsizeCoordinates { x: 0, y: 0 })
        &&& self.size.width.value == 0
        &&& self.size.height.value == 0
        &&& self.size.width.name@ == path@ + "/width"@
        &&& self.size.height.name@ == path@ + "/height"@
        &&& new_size(self.size, 0, 0, path@)
        &&& self.infinite_size == (InfiniteSize { width: false, height: false })
        &&& self.auto_scale.auto_scale_width.value == false
        &&& self.auto_scale.auto_scale_height.value == false
        &&& new_auto_scale(self.auto_scale, false, false, path@)
        &&& self.padding.padding_top.value == 0
        &&& self.padding.padding_bottom.value == 0
        &&& self.padding.padding_left.value == 0
        &&& self.padding.padding_right.value == 0
        &&& new_padding(self.padding, 0, 0, 0, 0, path@)
        &&& self.halign.value == HorizontalAlignment::Left
        &&& self.halign.name@ == path@ + "/halign"@
        &&& self.valign.value == VerticalAlignment::Top
        &&& self.valign.name@ == path@ + "/valign"@
        &&& self.active.value == false
        &&& self.active.name@ == path@ + "/active"@
        &&& self.disabled.value == false
        &&& self.disabled.name@ == path@ + "/disabled"@
        &&& self.selection_order.value == 0
        &&& self.selection_order.name@ == path@ + "/selection_order"@
        &&& self.border_config.border.value == false
        &&& new_border(self.border_config, false, path@)
        &&& new_colors(self.colors, path@, Color::Black)
        &&& !self.selected
    }

    /// The names of the properties of this state, in the order [`CheckboxState::new`] registers them.
    pub open spec fn property_names(&self) -> Seq<String> {
        seq![self.position.x.name, self.position.y.name, self.size.width.name, self.size.height.name, self.auto_scale.auto_scale_width.name, self.auto_scale.auto_scale_height.name, self.padding.padding_top.name, self.padding.padding_bottom.name, self.padding.padding_left.name, self.padding.padding_right.name, self.halign.name, self.valign.name, self.active.name, self.disabled.name, self.selection_order.name, self.border_config.border.name, self.border_config.horizontal_symbol.name, self.border_config.vertical_symbol.name, self.border_config.top_left_symbol.name, self.border_config.top_right_symbol.name, self.border_config.bottom_left_symbol.name, self.border_config.bottom_right_symbol.name, self.colors.fg_color.name, self.colors.bg_color.name, self.colors.selection_fg_color.name, self.colors.selection_bg_color.name, self.colors.disabled_fg_color.name, self.colors.disabled_bg_color.name, self.colors.active_fg_color.name, self.colors.active_bg_color.name, self.colors.flash_fg_color.name, self.colors.flash_bg_color.name, self.colors.tab_fg_color.name, self.colors.tab_bg_color.name, self.colors.tab_border_fg_color.name, self.colors.tab_border_bg_color.name, self.colors.filler_fg_color.name, self.colors.filler_bg_color.name, self.colors.border_fg_color.name, self.colors.border_bg_color.name, self.colors.cursor_color.name]
    }
}
impl CheckboxState {
    /// The size left for content inside the border and padding.
    pub fn get_effective_size(&self) -> (r: Size)
        ensures
            r == effective_size_of(self.size, self.border_config, self.padding),
    {
        get_effective_size(&self.size, &self.border_config, &self.padding)
    }

    /// Set the width so that `width` columns are left for content inside the border and
    /// padding.
    pub fn set_effective_width(&mut self, width: usize)
        requires
            outer_length(width as nat, old(self).border_config.border.value,
                old(self).padding.padding_left.value as nat,
                old(self).padding.padding_right.value as nat) <= usize::MAX,
        ensures
            final(self).size.width.value as nat == outer_length(width as nat,
                old(self).border_config.border.value, old(self).padding.padding_left.value as nat,
                old(self).padding.padding_right.value as nat),
            *final(self) == (CheckboxState { size: StateSize { width: EzProperty {
                name: old(self).size.width.name, value: final(self).size.width.value },
                ..old(self).size }, ..*old(self) }),
    {
        let w = outer_length_of(width, self.border_config.border.value,
            self.padding.padding_left.value, self.padding.padding_right.value);
        self.size.width.set(w);
    }

    /// Set the height so that `height` rows are left for content inside the border and
    /// padding.
    pub fn set_effective_height(&mut self, height: usize)
        requires
            outer_length(height as nat, old(self).border_config.border.value,
                old(self).padding.padding_top.value as nat,
                old(self).padding.padding_bottom.value as nat) <= usize::MAX,
        ensures
            final(self).size.height.value as nat == outer_length(height as nat,
                old(self).border_config.border.value, old(self).padding.padding_top.value as nat,
                old(self).padding.padding_bottom.value as nat),
            *final(self) == (CheckboxState { size: StateSize { height: EzProperty {
                name: old(self).size.height.name, value: final(self).size.height.value },
                ..old(self).size }, ..*old(self) }),
    {
        let h = outer_length_of(height, self.border_config.border.value,
            self.padding.padding_top.value, self.padding.padding_bottom.value);
        self.size.height.set(h);
    }

    /// Ask for this widget to be redrawn.
    pub fn update(&self, scheduler: &mut SchedulerFrontend)
        ensures
            final(scheduler).widgets_to_update@ == old(scheduler).widgets_to_update@.push(self.path),
            *final(scheduler) == (SchedulerFrontend { widgets_to_update: final(scheduler).widgets_to_update,
                ..*old(scheduler) }),
    {
        scheduler.update_widget(self.path.clone());
    }

    /// The colors this widget is drawn in: disabled, selected or normal.
    pub fn get_context_colors(&self) -> (r: (Color, Color))
        ensures
            r == context_colors(self.disabled.value, self.selected, self.colors),
    {
        get_context_colors(self.disabled.value, self.selected, &self.colors)
    }

    /// Enable or disable the widget.
    pub fn set_disabled(&mut self, disabled: bool)
        ensures
            *final(self) == (CheckboxState { disabled: EzProperty { name: old(self).disabled.name,
                value: disabled }, ..*old(self) }),
    {
        self.disabled.set(disabled);
    }

    /// Whether the widget is disabled.
    pub fn get_disabled(&self) -> (r: bool)
        ensures
            r == self.disabled.value,
    {
        self.disabled.value
    }
}

impl SelectableState for CheckboxState {
    open spec fn is_selected(&self) -> bool {
        self.selected
    }

    fn set_selected(&mut self, state: bool) {
        self.selected = state;
    }

    fn get_selected(&self) -> (r: bool) {
        self.selected
    }
}

impl SelectableWidgetState for CheckboxState {
    open spec fn is_selected(&self) -> bool {
        self.selected
    }

    fn set_selected(&mut self, state: bool) {
        self.selected = state;
    }

    fn get_selected(&self) -> (r: bool) {
        self.selected
    }
}

impl CheckboxState {
    /// Check or uncheck the checkbox.
    pub fn set_active(&mut self, active: bool)
        ensures
            *final(self) == (CheckboxState { active: EzProperty { name: old(self).active.name,
                value: active }, ..*old(self) }),
    {
        self.active.set(active);
    }

    /// Whether the checkbox is checked.
    pub fn get_active(&self) -> (r: bool)
        ensures
            r == self.active.value,
    {
        self.active.value
    }
}

/// Toggle a checkbox that was pressed: flip whether it is checked and ask for a redraw. The
/// value always changes, so the caller runs the value change callback.
pub fn handle_toggle(state: &mut CheckboxState, scheduler: &mut SchedulerFrontend)
    ensures
        *final(state) == toggled(*old(state)),
        final(scheduler).widgets_to_update@ == old(scheduler).widgets_to_update@.push(old(state).path),
        *final(scheduler) == (SchedulerFrontend { widgets_to_update: final(scheduler).widgets_to_update,
            ..*old(scheduler) }),
{
    let active = state.get_active();
    state.set_active(!active);
    state.update(scheduler);
}

/// A checkbox state with its check flipped.
pub open spec fn toggled(s: CheckboxState) -> CheckboxState {
    CheckboxState { active: EzProperty { name: s.active.name, value: !s.active.value }, ..s }
}

/// Toggling a checkbox twice leaves it as it was.
pub proof fn lemma_toggle_twice(s: CheckboxState)
    ensures
        toggled(toggled(s)) == s,
{
}

} // verus!
