//! Dropdown widget state and the menu it opens: ordering, highlighting and choosing options.
use vstd::prelude::*;
use crate::pixel::{Color, Coordinates, IsizeCoordinates, Size};
use crate::scheduler::{EzProperty, SchedulerFrontend, join_name};
use crate::definitions::{StateCoordinates, StateSize, InfiniteSize, AutoScale, Padding,
    HorizontalAlignment, VerticalAlignment, BorderConfig, ColorConfig, registered_names,
    new_coordinates, new_size, new_auto_scale, new_padding, new_border, new_colors};
use crate::geometry::{effective_size_of, get_effective_size, outer_length, outer_length_of};
use crate::pixel::{Pixel, PixelMap, PixelView, plain_pixel, grid};
use crate::helpers::{add_border, add_padding, framed, padded, space_pixel};
use crate::scheduler::names;
use crate::strings::{byte_len, utf8_len, string_of_char};
use crate::state::{context_colors, get_context_colors, SelectableState, SelectableWidgetState};

verus! {
/// Runtime state of a dropdown widget.
#[derive(Clone, Debug)]
pub struct DropdownState {
    /// Path of the widget this state belongs to.
    pub path: String,
    /// Position relative to the parent layout.
    pub position: StateCoordinates,
    /// Absolute position on screen.
    pub absolute_position: IsizeCoordinates,
    /// Size of the widget.
    pub size: StateSize,
    /// Whether the widget may grow without bound on each axis.
    pub infinite_size: InfiniteSize,
    /// Whether the size follows the content.
    pub auto_scale: AutoScale,
    /// Space left around the widget.
    pub padding: Padding,
    /// Horizontal alignment.
    pub halign: EzProperty<HorizontalAlignment>,
    /// Vertical alignment.
    pub valign: EzProperty<VerticalAlignment>,
    /// Options the user can choose from, in the order given.
    pub options: Vec<String>,
    /// Whether the empty choice is allowed.
    pub allow_none: EzProperty<bool>,
    /// The current choice; empty for none.
    pub choice: EzProperty<String>,
    /// Whether the widget cannot be interacted with.
    pub disabled: EzProperty<bool>,
    /// Order in which the widget is selected by keyboard.
    pub selection_order: EzProperty<usize>,
    /// Border of the widget.
    pub border_config: BorderConfig,
    /// Colors of the widget.
    pub colors: ColorConfig,
    /// Whether the widget is selected.
    pub selected: bool,
}

impl DropdownState {
    /// A state for the widget at `path`, registering its properties under that path.
    pub fn new(path: String, scheduler: &mut SchedulerFrontend) -> (r: DropdownState)
        ensures
            r.path == path,
            r.position.x.value == 0,
            r.position.y.value == 0,
            r.position.x.name@ == path@ + "/x"@,
            r.position.y.name@ == path@ + "/y"@,
            r.absolute_position == (IsizeCoordinates { x: 0, y: 0 }),
            r.size.width.value == 0,
            r.size.height.value == 0,
            r.size.width.name@ == path@ + "/width"@,
            r.size.height.name@ == path@ + "/height"@,
            r.infinite_size == (InfiniteSize { width: false, height: false }),
            r.auto_scale.auto_scale_width.value == false,
            r.auto_scale.auto_scale_height.value == false,
            r.padding.padding_top.value == 0,
            r.padding.padding_bottom.value == 0,
            r.padding.padding_left.value == 0,
            r.padding.padding_right.value == 0,
            r.halign.value == HorizontalAlignment::Left,
            r.halign.name@ == path@ + "/halign"@,
            r.valign.value == VerticalAlignment::Top,
            r.valign.name@ == path@ + "/valign"@,
            r.options@.len() == 0,
            r.allow_none.value == true,
            r.allow_none.name@ == path@ + "/allow_none"@,
            r.choice.value@ == Seq::<char>::empty(),
            r.choice.name@ == path@ + "/choice"@,
            r.disabled.value == false,
            r.disabled.name@ == path@ + "/disabled"@,
            r.selection_order.value == 0,
            r.selection_order.name@ == path@ + "/selection_order"@,
            r.border_config.border.value == false,
            !r.selected,
            r.is_fresh(path),
            registered_names(*old(scheduler), *final(scheduler), r.property_names()),
    {
        let ghost start = *scheduler;
        let position: StateCoordinates = StateCoordinates::new(0, 0, path.clone(), scheduler);
        let absolute_position: IsizeCoordinates = IsizeCoordinates::new(0, 0);
        let size: StateSize = StateSize::new(0, 0, path.clone(), scheduler);
        let infinite_size: InfiniteSize = InfiniteSize { width: false, height: false };
        let auto_scale: AutoScale = AutoScale::new(false, false, path.clone(), scheduler);
        let padding: Padding = Padding::new(0, 0, 0, 0, path.clone(), scheduler);
        let halign: EzProperty<HorizontalAlignment> = scheduler.new_property(join_name(&path, "/halign"), HorizontalAlignment::Left);
        let valign: EzProperty<VerticalAlignment> = scheduler.new_property(join_name(&path, "/valign"), VerticalAlignment::Top);
        let options: Vec<String> = Vec::new();
        let allow_none: EzProperty<bool> = scheduler.new_property(join_name(&path, "/allow_none"), true);
        let choice: EzProperty<String> = scheduler.new_property(join_name(&path, "/choice"), String::new());
        let disabled: EzProperty<bool> = scheduler.new_property(join_name(&path, "/disabled"), false);
        let selection_order: EzProperty<usize> = scheduler.new_property(join_name(&path, "/selection_order"), 0);
        let border_config: BorderConfig = BorderConfig::new(false, path.clone(), scheduler);
        let colors: ColorConfig = ColorConfig::new(path.clone(), scheduler);
        let selected: bool = false;
        let r = DropdownState { path, position, absolute_position, size, infinite_size, auto_scale, padding, halign, valign, options, allow_none, choice, disabled, selection_order, border_config, colors, selected };
        assert(scheduler.properties@ =~= start.properties@ + seq![r.position.x.name, r.position.y.name, r.size.width.name, r.size.height.name, r.auto_scale.auto_scale_width.name, r.auto_scale.auto_scale_height.name, r.padding.padding_top.name, r.padding.padding_bottom.name, r.padding.padding_left.name, r.padding.padding_right.name, r.halign.name, r.valign.name, r.allow_none.name, r.choice.name, r.disabled.name, r.selection_order.name, r.border_config.border.name, r.border_config.horizontal_symbol.name, r.border_config.vertical_symbol.name, r.border_config.top_left_symbol.name, r.border_config.top_right_symbol.name, r.border_config.bottom_left_symbol.name, r.border_config.bottom_right_symbol.name, r.colors.fg_color.name, r.colors.bg_color.name, r.colors.selection_fg_color.name, r.colors.selection_bg_color.name, r.colors.disabled_fg_color.name, r.colors.disabled_bg_color.name, r.colors.active_fg_color.name, r.colors.active_bg_color.name, r.colors.flash_fg_color.name, r.colors.flash_bg_color.name, r.colors.tab_fg_color.name, r.colors.tab_bg_color.name, r.colors.tab_border_fg_color.name, r.colors.tab_border_bg_color.name, r.colors.filler_fg_color.name, r.colors.filler_bg_color.name, r.colors.border_fg_color.name, r.colors.border_bg_color.name, r.colors.cursor_color.name]);
        r
    }

    /// Whether this is the state [`DropdownState::new`] builds for the widget at `path`.
    pub open spec fn is_fresh(&self, path: String) -> bool {
        &&& self.path == path
        &&& self.position.x.value == 0
        &&& self.position.y.value == 0
        &&& self.position.x.name@ == path@ + "/x"@
        &&& self.position.y.name@ == path@ + "/y"@
        &&& new_coordinates(self.position, 0, 0, path@)
        &&& self.absolute_position == (IsizeCoordinates { x: 0, y: 0 })
        &&& self.size.width.value == 0
        &&& self.size.height.value == 0
        &&& self.size.width.name@ == path@ + "/width"@
        &&& self.size.height.name@ == path@ + "/height"@
        &&& new_size(self.size, 0, 0, path@)
        &&& self.infinite_size == (InfiniteSize { width: false, height: false })
        &&& self.auto_scale.auto_scale_width.value == false
        &&& self.auto_scale.auto_scale_height.value == false
        &&& new_auto_scale(self.auto_scale, false, false, path@)
        &&& self.padding.padding_top.value == 0
        &&& self.padding.padding_bottom.value == 0
        &&& self.padding.padding_left.value == 0
        &&& self.padding.padding_right.value == 0
        &&& new_padding(self.padding, 0, 0, 0, 0, path@)
        &&& self.halign.value == HorizontalAlignment::Left
        &&& self.halign.name@ == path@ + "/halign"@
        &&& self.valign.value == VerticalAlignment::Top
        &&& self.valign.name@ == path@ + "/valign"@
        &&& self.options@.len() == 0
        &&& self.allow_none.value == true
        &&& self.allow_none.name@ == path@ + "/allow_none"@
        &&& self.choice.value@ == Seq::<char>::empty()
        &&& self.choice.name@ == path@ + "/choice"@
        &&& self.disabled.value == false
        &&& self.disabled.name@ == path@ + "/disabled"@
        &&& self.selection_order.value == 0
        &&& self.selection_order.name@ == path@ + "/selection_order"@
        &&& self.border_config.border.value == false
        &&& new_border(self.border_config, false, path@)
        &&& new_colors(self.colors, path@, Color::Black)
        &&& !self.selected
    }

    /// The names of the properties of this state, in the order [`DropdownState::new`] registers them.
    pub open spec fn property_names(&self) -> Seq<String> {
        seq![self.position.x.name, self.position.y.name, self.size.width.name, self.size.height.name, self.auto_scale.auto_scale_width.name, self.auto_scale.auto_scale_height.name, self.padding.padding_top.name, self.padding.padding_bottom.name, self.padding.padding_left.name, self.padding.padding_right.name, self.halign.name, self.valign.name, self.allow_none.name, self.choice.name, self.disabled.name, self.selection_order.name, self.border_config.border.name, self.border_config.horizontal_symbol.name, self.border_config.vertical_symbol.name, self.border_config.top_left_symbol.name, self.border_config.top_right_symbol.name, self.border_config.bottom_left_symbol.name, self.border_config.bottom_right_symbol.name, self.colors.fg_color.name, self.colors.bg_color.name, self.colors.selection_fg_color.name, self.colors.selection_bg_color.name, self.colors.disabled_fg_color.name, self.colors.disabled_bg_color.name, self.colors.active_fg_color.name, self.colors.active_bg_color.name, self.colors.flash_fg_color.name, self.colors.flash_bg_color.name, self.colors.tab_fg_color.name, self.colors.tab_bg_color.name, self.colors.tab_border_fg_color.name, self.colors.tab_border_bg_color.name, self.colors.filler_fg_color.name, self.colors.filler_bg_color.name, self.colors.border_fg_color.name, self.colors.border_bg_color.name, self.colors.cursor_color.name]
    }
}
impl DropdownState {
    /// The size left for content inside the border and padding.
    pub fn get_effective_size(&self) -> (r: Size)
        ensures
            r == effective_size_of(self.size, self.border_config, self.padding),
    {
        get_effective_size(&self.size, &self.border_config, &self.padding)
    }

    /// Set the width so that `width` columns are left for content inside the border and
    /// padding.
    pub fn set_effective_width(&mut self, width: usize)
        requires
            outer_length(width as nat, old(self).border_config.border.value,
                old(self).padding.padding_left.value as nat,
                old(self).padding.padding_right.value as nat) <= usize::MAX,
        ensures
            final(self).size.width.value as nat == outer_length(width as nat,
                old(self).border_config.border.value, old(self).padding.padding_left.value as nat,
                old(self).padding.padding_right.value as nat),
            *final(self) == (DropdownState { size: StateSize { width: EzProperty {
                name: old(self).size.width.name, value: final(self).size.width.value },
                ..old(self).size }, ..*old(self) }),
    {
        let w = outer_length_of(width, self.border_config.border.value,
            self.padding.padding_left.value, self.padding.padding_right.value);
        self.size.width.set(w);
    }

    /// Set the height so that `height` rows are left for content inside the border and
    /// padding.
    pub fn set_effective_height(&mut self, height: usize)
        requires
            outer_length(height as nat, old(self).border_config.border.value,
                old(self).padding.padding_top.value as nat,
                old(self).padding.padding_bottom.value as nat) <= usize::MAX,
        ensures
            final(self).size.height.value as nat == outer_length(height as nat,
                old(self).border_config.border.value, old(self).padding.padding_top.value as nat,
                old(self).padding.padding_bottom.value as nat),
            *final(self) == (DropdownState { size: StateSize { height: EzProperty {
                name: old(self).size.height.name, value: final(self).size.height.value },
                ..old(self).size }, ..*old(self) }),
    {
        let h = outer_length_of(height, self.border_config.border.value,
            self.padding.padding_top.value, self.padding.padding_bottom.value);
        self.size.height.set(h);
    }

    /// Ask for this widget to be redrawn.
    pub fn update(&self, scheduler: &mut SchedulerFrontend)
        ensures
            final(scheduler).widgets_to_update@ == old(scheduler).widgets_to_update@.push(self.path),
            *final(scheduler) == (SchedulerFrontend { widgets_to_update: final(scheduler).widgets_to_update,
                ..*old(scheduler) }),
    {
        scheduler.update_widget(self.path.clone());
    }

    /// The colors this widget is drawn in: disabled, selected or normal.
    pub fn get_context_colors(&self) -> (r: (Color, Color))
        ensures
            r == context_colors(self.disabled.value, self.selected, self.colors),
    {
        get_context_colors(self.disabled.value, self.selected, &self.colors)
    }

    /// Enable or disable the widget.
    pub fn set_disabled(&mut self, disabled: bool)
        ensures
            *final(self) == (DropdownState { disabled: EzProperty { name: old(self).disabled.name,
                value: disabled }, ..*old(self) }),
    {
        self.disabled.set(disabled);
    }

    /// Whether the widget is disabled.
    pub fn get_disabled(&self) -> (r: bool)
        ensures
            r == self.disabled.value,
    {
        self.disabled.value
    }
}

impl SelectableState for DropdownState {
    open spec fn is_selected(&self) -> bool {
        self.selected
    }

    fn set_selected(&mut self, state: bool) {
        self.selected = state;
    }

    fn get_selected(&self) -> (r: bool) {
        self.selected
    }
}

impl SelectableWidgetState for DropdownState {
    open spec fn is_selected(&self) -> bool {
        self.selected
    }

    fn set_selected(&mut self, state: bool) {
        self.selected = state;
    }

    fn get_selected(&self) -> (r: bool) {
        self.selected
    }
}


/// Runtime state of the menu a dropdown opens: its options, one of them highlighted.
#[derive(Clone, Debug)]
pub struct DroppedDownMenuState {
    /// Path of the widget this state belongs to.
    pub path: String,
    /// Path of the dropdown this menu belongs to.
    pub parent_path: String,
    /// Position relative to the parent layout.
    pub position: StateCoordinates,
    /// Absolute position on screen.
    pub absolute_position: IsizeCoordinates,
    /// Size of the widget.
    pub size: StateSize,
    /// Whether the widget may grow without bound on each axis.
    pub infinite_size: InfiniteSize,
    /// Whether the size follows the content.
    pub auto_scale: AutoScale,
    /// Space left around the widget.
    pub padding: Padding,
    /// Horizontal alignment.
    pub halign: EzProperty<HorizontalAlignment>,
    /// Vertical alignment.
    pub valign: EzProperty<VerticalAlignment>,
    /// Options the user can choose from, in the order given.
    pub options: Vec<String>,
    /// Whether the empty choice is allowed.
    pub allow_none: EzProperty<bool>,
    /// The current choice; empty for none.
    pub choice: EzProperty<String>,
    /// Border of the widget.
    pub border_config: BorderConfig,
    /// Colors of the widget.
    pub colors: ColorConfig,
    /// Whether the widget cannot be interacted with.
    pub disabled: EzProperty<bool>,
    /// Order in which the widget is selected by keyboard.
    pub selection_order: EzProperty<usize>,
    /// Row of the highlighted option.
    pub dropped_down_selected_row: usize,
}

impl DroppedDownMenuState {
    /// A state for the widget at `path`, registering its properties under that path.
    pub fn new(path: String, scheduler: &mut SchedulerFrontend) -> (r: DroppedDownMenuState)
        ensures
            r.path == path,
            r.parent_path@ == Seq::<char>::empty(),
            r.position.x.value == 0,
            r.position.y.value == 0,
            r.position.x.name@ == path@ + "/x"@,
            r.position.y.name@ == path@ + "/y"@,
            r.absolute_position == (IsizeCoordinates { x: 0, y: 0 }),
            r.size.width.value == 0,
            r.size.height.value == 3,
            r.infinite_size == (InfiniteSize { width: false, height: false }),
            r.auto_scale.auto_scale_width.value == false,
            r.auto_scale.auto_scale_height.value == false,
            r.padding.padding_top.value == 0,
            r.padding.padding_bottom.value == 0,
            r.padding.padding_left.value == 0,
            r.padding.padding_right.value == 0,
            r.halign.value == HorizontalAlignment::Left,
            r.halign.name@ == path@ + "/halign"@,
            r.valign.value == VerticalAlignment::Top,
            r.valign.name@ == path@ + "/valign"@,
            r.options@.len() == 0,
            r.allow_none.value == true,
            r.allow_none.name@ == path@ + "/allow_none"@,
            r.choice.value@ == Seq::<char>::empty(),
            r.choice.name@ == path@ + "/choice"@,
            r.border_config.border.value == false,
            r.disabled.value == false,
            r.disabled.name@ == path@ + "/disabled"@,
            r.selection_order.value == 0,
            r.selection_order.name@ == path@ + "/selection_order"@,
            r.dropped_down_selected_row == 0,
            r.is_fresh(path),
            registered_names(*old(scheduler), *final(scheduler), r.property_names()),
    {
        let ghost start = *scheduler;
        let parent_path: String = String::new();
        let position: StateCoordinates = StateCoordinates::new(0, 0, path.clone(), scheduler);
        let absolute_position: IsizeCoordinates = IsizeCoordinates::new(0, 0);
        let size: StateSize = StateSize::new(0, 3, path.clone(), scheduler);
        let infinite_size: InfiniteSize = InfiniteSize { width: false, height: false };
        let auto_scale: AutoScale = AutoScale::new(false, false, path.clone(), scheduler);
        let padding: Padding = Padding::new(0, 0, 0, 0, path.clone(), scheduler);
        let halign: EzProperty<HorizontalAlignment> = scheduler.new_property(join_name(&path, "/halign"), HorizontalAlignment::Left);
        let valign: EzProperty<VerticalAlignment> = scheduler.new_property(join_name(&path, "/valign"), VerticalAlignment::Top);
        let options: Vec<String> = Vec::new();
        let allow_none: EzProperty<bool> = scheduler.new_property(join_name(&path, "/allow_none"), true);
        let choice: EzProperty<String> = scheduler.new_property(join_name(&path, "/choice"), String::new());
        let border_config: BorderConfig = BorderConfig::new(false, path.clone(), scheduler);
        let colors: ColorConfig = ColorConfig::new(path.clone(), scheduler);
        let disabled: EzProperty<bool> = scheduler.new_property(join_name(&path, "/disabled"), false);
        let selection_order: EzProperty<usize> = scheduler.new_property(join_name(&path, "/selection_order"), 0);
        let dropped_down_selected_row: usize = 0;
        let r = DroppedDownMenuState { path, parent_path, position, absolute_position, size, infinite_size, auto_scale, padding, halign, valign, options, allow_none, choice, border_config, colors, disabled, selection_order, dropped_down_selected_row };
        assert(scheduler.properties@ =~= start.properties@ + seq![r.position.x.name, r.position.y.name, r.size.width.name, r.size.height.name, r.auto_scale.auto_scale_width.name, r.auto_scale.auto_scale_height.name, r.padding.padding_top.name, r.padding.padding_bottom.name, r.padding.padding_left.name, r.padding.padding_right.name, r.halign.name, r.valign.name, r.allow_none.name, r.choice.name, r.border_config.border.name, r.border_config.horizontal_symbol.name, r.border_config.vertical_symbol.name, r.border_config.top_left_symbol.name, r.border_config.top_right_symbol.name, r.border_config.bottom_left_symbol.name, r.border_config.bottom_right_symbol.name, r.colors.fg_color.name, r.colors.bg_color.name, r.colors.selection_fg_color.name, r.colors.selection_bg_color.name, r.colors.disabled_fg_color.name, r.colors.disabled_bg_color.name, r.colors.active_fg_color.name, r.colors.active_bg_color.name, r.colors.flash_fg_color.name, r.colors.flash_bg_color.name, r.colors.tab_fg_color.name, r.colors.tab_bg_color.name, r.colors.tab_border_fg_color.name, r.colors.tab_border_bg_color.name, r.colors.filler_fg_color.name, r.colors.filler_bg_color.name, r.colors.border_fg_color.name, r.colors.border_bg_color.name, r.colors.cursor_color.name, r.disabled.name, r.selection_order.name]);
        r
    }

    /// Whether this is the state [`DroppedDownMenuState::new`] builds for the widget at `path`.
    pub open spec fn is_fresh(&self, path: String) -> bool {
        &&& self.path == path
        &&& self.parent_path@ == Seq::<char>::empty()
        &&& self.position.x.value == 0
        &&& self.position.y.value == 0
        &&& self.position.x.name@ == path@ + "/x"@
        &&& self.position.y.name@ == path@ + "/y"@
        &&& new_coordinates(self.position, 0, 0, path@)
        &&& self.absolute_position == (IsizeCoordinates { x: 0, y: 0 })
        &&& self.size.width.value == 0
        &&& self.size.height.value == 3
        &&& self.infinite_size == (InfiniteSize { width: false, height: false })
        &&& self.auto_scale.auto_scale_width.value == false
        &&& self.auto_scale.auto_scale_height.value == false
        &&& new_auto_scale(self.auto_scale, false, false, path@)
        &&& self.padding.padding_top.value == 0
        &&& self.padding.padding_bottom.value == 0
        &&& self.padding.padding_left.value == 0
        &&& self.padding.padding_right.value == 0
        &&& new_padding(self.padding, 0, 0, 0, 0, path@)
        &&& self.halign.value == HorizontalAlignment::Left
        &&& self.halign.name@ == path@ + "/halign"@
        &&& self.valign.value == VerticalAlignment::Top
        &&& self.valign.name@ == path@ + "/valign"@
        &&& self.options@.len() == 0
        &&& self.allow_none.value == true
        &&& self.allow_none.name@ == path@ + "/allow_none"@
        &&& self.choice.value@ == Seq::<char>::empty()
        &&& self.choice.name@ == path@ + "/choice"@
        &&& self.border_config.border.value == false
        &&& new_border(self.border_config, false, path@)
        &&& new_colors(self.colors, path@, Color::Black)
        &&& self.disabled.value == false
        &&& self.disabled.name@ == path@ + "/disabled"@
        &&& self.selection_order.value == 0
        &&& self.selection_order.name@ == path@ + "/selection_order"@
        &&& self.dropped_down_selected_row == 0
    }

    /// The names of the properties of this state, in the order [`DroppedDownMenuState::new`] registers them.
    pub open spec fn property_names(&self) -> Seq<String> {
        seq![self.position.x.name, self.position.y.name, self.size.width.name, self.size.height.name, self.auto_scale.auto_scale_width.name, self.auto_scale.auto_scale_height.name, self.padding.padding_top.name, self.padding.padding_bottom.name, self.padding.padding_left.name, self.padding.padding_right.name, self.halign.name, self.valign.name, self.allow_none.name, self.choice.name, self.border_config.border.name, self.border_config.horizontal_symbol.name, self.border_config.vertical_symbol.name, self.border_config.top_left_symbol.name, self.border_config.top_right_symbol.name, self.border_config.bottom_left_symbol.name, self.border_config.bottom_right_symbol.name, self.colors.fg_color.name, self.colors.bg_color.name, self.colors.selection_fg_color.name, self.colors.selection_bg_color.name, self.colors.disabled_fg_color.name, self.colors.disabled_bg_color.name, self.colors.active_fg_color.name, self.colors.active_bg_color.name, self.colors.flash_fg_color.name, self.colors.flash_bg_color.name, self.colors.tab_fg_color.name, self.colors.tab_bg_color.name, self.colors.tab_border_fg_color.name, self.colors.tab_border_bg_color.name, self.colors.filler_fg_color.name, self.colors.filler_bg_color.name, self.colors.border_fg_color.name, self.colors.border_bg_color.name, self.colors.cursor_color.name, self.disabled.name, self.selection_order.name]
    }
}

/// The options other than `choice`, in their order.
pub open spec fn other_options(options: Seq<Seq<char>>, choice: Seq<char>) -> Seq<Seq<char>>
    decreases options.len(),
{
    if options.len() == 0 {
        Seq::empty()
    } else {
        let rest = other_options(options.drop_last(), choice);
        if options.last() == choice { rest } else { rest.push(options.last()) }
    }
}

/// The options of an opened dropdown menu, in the order shown: the current choice, then the
/// empty option if it is allowed and the choice is not already empty, then the other options
/// in their order.
pub open spec fn dropped_down_options(choice: Seq<char>, allow_none: bool, options: Seq<Seq<char>>)
    -> Seq<Seq<char>> {
    seq![choice] + (if allow_none && choice.len() > 0 { seq![Seq::<char>::empty()] } else { Seq::empty() })
        + other_options(options, choice)
}

/// Number of options including the empty one when it is allowed.
pub open spec fn option_count(options_len: nat, allow_none: bool) -> nat {
    options_len + if allow_none { 1nat } else { 0nat }
}

/// Push the options other than `choice` onto `result`.
fn push_other_options(result: &mut Vec<String>, options: &Vec<String>, choice: &String)
    ensures
        names(final(result)@) == names(old(result)@) + other_options(names(options@), choice@),
{
    let mut i: usize = 0;
    while i < options.len()
        invariant
            i <= options@.len(),
            names(result@) == names(old(result)@) + other_options(names(options@.take(i as int)), choice@),
        decreases options@.len() - i,
    {
        let ghost before = result@;
        assert(names(options@.take(i + 1)).drop_last() =~= names(options@.take(i as int)));
        assert(names(options@.take(i + 1)).last() == options@[i as int]@);
        if !options[i].eq(choice) {
            result.push(options[i].clone());
            assert(names(result@) =~= names(before).push(options@[i as int]@));
        }
        i = i + 1;
    }
    assert(options@.take(options@.len() as int) =~= options@);
}

/// The options of an opened menu, in the order shown (see [`dropped_down_options`]).
fn ordered_options(choice: &String, allow_none: bool, options: &Vec<String>) -> (r: Vec<String>)
    ensures
        names(r@) == dropped_down_options(choice@, allow_none, names(options@)),
{
    let mut r: Vec<String> = vec![choice.clone()];
    assert(names(r@) =~= seq![choice@]);
    if allow_none && choice.as_str().unicode_len() > 0 {
        r.push(String::new());
        assert(names(r@) =~= seq![choice@, Seq::<char>::empty()]);
    }
    push_other_options(&mut r, options, choice);
    assert(names(r@) =~= dropped_down_options(choice@, allow_none, names(options@)));
    r
}

impl DropdownState {
    /// Set the choice.
    pub fn set_choice(&mut self, choice: String)
        ensures
            *final(self) == (DropdownState { choice: EzProperty { name: old(self).choice.name,
                value: choice }, ..*old(self) }),
    {
        self.choice.set(choice);
    }

    /// The choice.
    pub fn get_choice(&self) -> (r: String)
        ensures
            r == self.choice.value,
    {
        self.choice.value.clone()
    }

    /// Set the options.
    pub fn set_options(&mut self, options: Vec<String>)
        ensures
            *final(self) == (DropdownState { options, ..*old(self) }),
    {
        self.options = options;
    }

    /// The options.
    pub fn get_options(&self) -> (r: Vec<String>)
        ensures
            r@ == self.options@,
    {
        self.options.clone()
    }

    /// Allow or forbid the empty choice.
    pub fn set_allow_none(&mut self, allow_none: bool)
        ensures
            *final(self) == (DropdownState { allow_none: EzProperty { name: old(self).allow_none.name,
                value: allow_none }, ..*old(self) }),
    {
        self.allow_none.set(allow_none);
    }

    /// Whether the empty choice is allowed.
    pub fn get_allow_none(&self) -> (r: bool)
        ensures
            r == self.allow_none.value,
    {
        self.allow_none.value
    }

    /// Number of options, counting the empty option when it is allowed.
    pub fn total_options(&self) -> (r: usize)
        requires
            option_count(self.options@.len(), self.allow_none.value) <= usize::MAX,
        ensures
            r as nat == option_count(self.options@.len(), self.allow_none.value),
    {
        self.options.len() + if self.allow_none.value { 1 } else { 0 }
    }
}

impl DroppedDownMenuState {
    /// Set the choice.
    pub fn set_choice(&mut self, choice: String)
        ensures
            *final(self) == (DroppedDownMenuState { choice: EzProperty { name: old(self).choice.name,
                value: choice }, ..*old(self) }),
    {
        self.choice.set(choice);
    }

    /// The choice.
    pub fn get_choice(&self) -> (r: String)
        ensures
            r == self.choice.value,
    {
        self.choice.value.clone()
    }

    /// Set the options.
    pub fn set_options(&mut self, options: Vec<String>)
        ensures
            *final(self) == (DroppedDownMenuState { options, ..*old(self) }),
    {
        self.options = options;
    }

    /// The options.
    pub fn get_options(&self) -> (r: Vec<String>)
        ensures
            r@ == self.options@,
    {
        self.options.clone()
    }

    /// Allow or forbid the empty choice.
    pub fn set_allow_none(&mut self, allow_none: bool)
        ensures
            *final(self) == (DroppedDownMenuState { allow_none: EzProperty {
                name: old(self).allow_none.name, value: allow_none }, ..*old(self) }),
    {
        self.allow_none.set(allow_none);
    }

    /// Whether the empty choice is allowed.
    pub fn get_allow_none(&self) -> (r: bool)
        ensures
            r == self.allow_none.value,
    {
        self.allow_none.value
    }

    /// Highlight a row.
    pub fn set_dropped_down_selected_row(&mut self, row: usize)
        ensures
            *final(self) == (DroppedDownMenuState { dropped_down_selected_row: row, ..*old(self) }),
    {
        self.dropped_down_selected_row = row;
    }

    /// The highlighted row.
    pub fn get_dropped_down_selected_row(&self) -> (r: usize)
        ensures
            r == self.dropped_down_selected_row,
    {
        self.dropped_down_selected_row
    }

    /// Number of options, counting the empty option when it is allowed.
    pub fn total_options(&self) -> (r: usize)
        requires
            option_count(self.options@.len(), self.allow_none.value) <= usize::MAX,
        ensures
            r as nat == option_count(self.options@.len(), self.allow_none.value),
    {
        self.options.len() + if self.allow_none.value { 1 } else { 0 }
    }

    /// The options in the order the menu shows them: the current choice, the empty option
    /// if it is allowed and the choice is not empty, then the other options in their order.
    pub fn get_dropped_down_options(&self) -> (r: Vec<String>)
        ensures
            names(r@) == dropped_down_options(self.choice.value@, self.allow_none.value,
                names(self.options@)),
    {
        ordered_options(&self.choice.value, self.allow_none.value, &self.options)
    }
}

/// A menu state with another row highlighted.
pub open spec fn with_row(s: DroppedDownMenuState, row: usize) -> DroppedDownMenuState {
    DroppedDownMenuState { dropped_down_selected_row: row, ..s }
}

/// The row highlighted after pressing up: the one above, or the last one from the top row.
pub open spec fn row_up(row: nat, total: nat) -> nat {
    if row == 0 { (total - 1) as nat } else { (row - 1) as nat }
}

/// The row highlighted after pressing down: the one below, or the top one from the last row.
pub open spec fn row_down(row: nat, total: nat) -> nat {
    if row == total - 1 { 0 } else { row + 1 }
}

/// Move the highlight one row up, wrapping from the top row to the last one.
pub fn handle_up(state: &mut DroppedDownMenuState)
    requires
        0 < option_count(old(state).options@.len(), old(state).allow_none.value) <= usize::MAX,
    ensures
        *final(state) == with_row(*old(state), row_up(old(state).dropped_down_selected_row as nat,
            option_count(old(state).options@.len(), old(state).allow_none.value)) as usize),
{
    let total = state.total_options();
    if state.dropped_down_selected_row == 0 {
        state.set_dropped_down_selected_row(total - 1);
    } else {
        let row = state.dropped_down_selected_row - 1;
        state.set_dropped_down_selected_row(row);
    }
}

/// Move the highlight one row down, wrapping from the last row to the top one.
pub fn handle_down(state: &mut DroppedDownMenuState)
    requires
        0 < option_count(old(state).options@.len(), old(state).allow_none.value) <= usize::MAX,
        old(state).dropped_down_selected_row < usize::MAX,
    ensures
        *final(state) == with_row(*old(state), row_down(old(state).dropped_down_selected_row as nat,
            option_count(old(state).options@.len(), old(state).allow_none.value)) as usize),
{
    let total = state.total_options();
    if state.dropped_down_selected_row == total - 1 {
        state.set_dropped_down_selected_row(0);
    } else {
        let row = state.dropped_down_selected_row + 1;
        state.set_dropped_down_selected_row(row);
    }
}

/// Moving the highlight keeps it on an option, and down then up, or up then down, comes
/// back to the same row.
pub proof fn lemma_up_down_round_trip(row: nat, total: nat)
    requires
        row < total,
    ensures
        row_up(row, total) < total,
        row_down(row, total) < total,
        row_up(row_down(row, total), total) == row,
        row_down(row_up(row, total), total) == row,
{
}

/// On a menu with its highlight on an option, pressing down then up, or up then down, leaves
/// the menu as it was.
pub proof fn lemma_menu_down_up(s: DroppedDownMenuState)
    requires
        0 < option_count(s.options@.len(), s.allow_none.value) <= usize::MAX,
        s.dropped_down_selected_row < option_count(s.options@.len(), s.allow_none.value),
    ensures
        ({
            let total = option_count(s.options@.len(), s.allow_none.value);
            let down = with_row(s, row_down(s.dropped_down_selected_row as nat, total) as usize);
            let up = with_row(s, row_up(s.dropped_down_selected_row as nat, total) as usize);
            &&& with_row(down, row_up(down.dropped_down_selected_row as nat, total) as usize) == s
            &&& with_row(up, row_down(up.dropped_down_selected_row as nat, total) as usize) == s
        }),
{
    let total = option_count(s.options@.len(), s.allow_none.value);
    lemma_up_down_round_trip(s.dropped_down_selected_row as nat, total);
}

/// Highlight the option under the mouse when it hovers over the menu at row `pos.y` on
/// screen (the rows start one below the menu's top border). Returns whether the highlight
/// moved.
pub fn handle_hover(state: &mut DroppedDownMenuState, pos: Coordinates) -> (moved: bool)
    requires
        pos.y > old(state).absolute_position.y,
        old(state).absolute_position.y >= 0,
        old(state).options@.len() < usize::MAX,
    ensures
        ({
            let hovered = pos.y - old(state).absolute_position.y;
            let count = dropped_down_options(old(state).choice.value@, old(state).allow_none.value,
                names(old(state).options@)).len();
            &&& moved == (hovered - 1 != old(state).dropped_down_selected_row && hovered <= count)
            &&& moved ==> *final(state) == with_row(*old(state), (hovered - 1) as usize)
            &&& !moved ==> *final(state) == *old(state)
        }),
{
    let top = state.absolute_position.y as usize;
    let hovered = pos.y - top;
    let options = state.get_dropped_down_options();
    proof {
        assert(names(options@).len() == options@.len());
    }
    if hovered - 1 != state.dropped_down_selected_row && hovered <= options.len() {
        state.set_dropped_down_selected_row(hovered - 1);
        return true;
    }
    false
}

/// Confirm the highlighted option of an opened menu: it becomes the choice of the dropdown
/// the menu belongs to.
pub fn handle_enter(menu: &DroppedDownMenuState, dropdown: &mut DropdownState)
    requires
        menu.dropped_down_selected_row < dropped_down_options(menu.choice.value@, menu.allow_none.value,
            names(menu.options@)).len(),
    ensures
        *final(dropdown) == (DropdownState { choice: EzProperty { name: old(dropdown).choice.name,
            value: final(dropdown).choice.value }, ..*old(dropdown) }),
        final(dropdown).choice.value@ == dropped_down_options(menu.choice.value@, menu.allow_none.value,
            names(menu.options@))[menu.dropped_down_selected_row as int],
{
    let options = menu.get_dropped_down_options();
    let choice = options[menu.dropped_down_selected_row].clone();
    dropdown.set_choice(choice);
}

/// A left click on an opened menu at row `pos.y` on screen. When the click is inside the
/// menu's content (`inside`) and on an option row, that option becomes the dropdown's
/// choice and the dropdown is enabled again; a click outside the menu only enables the
/// dropdown again. Returns whether a choice was made (then the caller closes the menu and
/// runs the value change callback).
pub fn handle_left_click(menu: &DroppedDownMenuState, dropdown: &mut DropdownState, pos: Coordinates,
    inside: bool) -> (chosen: bool)
    requires
        inside ==> pos.y > menu.absolute_position.y >= 0,
        inside ==> pos.y - menu.absolute_position.y <= effective_size_of(menu.size,
            menu.border_config, menu.padding).height ==> pos.y - menu.absolute_position.y
            <= dropped_down_options(menu.choice.value@, menu.allow_none.value, names(menu.options@)).len(),
    ensures
        ({
            let clicked = pos.y - menu.absolute_position.y;
            let options = dropped_down_options(menu.choice.value@, menu.allow_none.value,
                names(menu.options@));
            &&& chosen == (inside && clicked <= effective_size_of(menu.size, menu.border_config,
                menu.padding).height)
            &&& chosen ==> final(dropdown).choice.value@ == options[clicked - 1]
            &&& chosen ==> *final(dropdown) == (DropdownState {
                choice: EzProperty { name: old(dropdown).choice.name, value: final(dropdown).choice.value },
                disabled: EzProperty { name: old(dropdown).disabled.name, value: false },
                ..*old(dropdown) })
            &&& !inside ==> *final(dropdown) == (DropdownState {
                disabled: EzProperty { name: old(dropdown).disabled.name, value: false },
                ..*old(dropdown) })
            &&& inside && !chosen ==> *final(dropdown) == *old(dropdown)
        }),
{
    if inside {
        let clicked = pos.y - menu.absolute_position.y as usize;
        let height = get_effective_size(&menu.size, &menu.border_config, &menu.padding).height;
        if clicked <= height {
            let options = menu.get_dropped_down_options();
            proof {
                assert(names(options@).len() == options@.len());
            }
            let choice = options[clicked - 1].clone();
            proof {
                assert(names(options@)[clicked - 1] == options@[clicked - 1]@);
            }
            dropdown.set_choice(choice);
            dropdown.set_disabled(false);
            return true;
        }
        false
    } else {
        dropdown.set_disabled(false);
        false
    }
}

/// Open the menu of a dropdown at screen position (`x`, `y`): the dropdown is disabled while
/// the menu is open, and the menu, registered under `menu_path`, holds the dropdown's
/// options, choice, border and colors, is as wide as the dropdown and has a row for each
/// option plus two for the border, with the top row highlighted.
pub fn open_menu(dropdown: &mut DropdownState, menu_path: String, x: usize, y: usize,
    scheduler: &mut SchedulerFrontend) -> (menu: DroppedDownMenuState)
    requires
        old(dropdown).options@.len() + 3 <= usize::MAX,
    ensures
        *final(dropdown) == (DropdownState { disabled: EzProperty { name: old(dropdown).disabled.name,
            value: true }, ..*old(dropdown) }),
        menu.path == menu_path,
        menu.parent_path == old(dropdown).path,
        menu.position.x.value == x,
        menu.position.y.value == y,
        menu.size.width.value == old(dropdown).size.width.value,
        menu.size.height.value == option_count(old(dropdown).options@.len(),
            old(dropdown).allow_none.value) + 2,
        menu.options@ == old(dropdown).options@,
        menu.allow_none.value == old(dropdown).allow_none.value,
        menu.choice.value == old(dropdown).choice.value,
        menu.border_config == old(dropdown).border_config,
        menu.colors == old(dropdown).colors,
        menu.dropped_down_selected_row == 0,
{
    dropdown.set_disabled(true);
    let mut menu = DroppedDownMenuState::new(menu_path, scheduler);
    menu.parent_path = dropdown.path.clone();
    menu.position.x.set(x);
    menu.position.y.set(y);
    menu.size.width.set(dropdown.size.width.value);
    let total = dropdown.total_options();
    menu.size.height.set(total + 2);
    menu.options = dropdown.options.clone();
    menu.allow_none.set(dropdown.allow_none.value);
    menu.choice.set(dropdown.choice.value.clone());
    menu.border_config = dropdown.border_config.duplicate();
    menu.colors = dropdown.colors.duplicate();
    menu
}


/// The pixel of an opened menu at column `x` of option row `y`: the option's character or
/// a space, in the selection colors on the highlighted row.
pub open spec fn menu_pixel(options: Seq<Seq<char>>, selected: nat, colors: ColorConfig, x: int, y: int)
    -> PixelView {
    let fg = if y == selected { colors.selection_fg_color.value } else { colors.fg_color.value };
    let bg = if y == selected { colors.selection_bg_color.value } else { colors.bg_color.value };
    plain_pixel(if x < options[y].len() { seq![options[y][x]] } else { seq![' '] }, fg, bg)
}

/// The option rows of an opened menu, `width` columns wide.
pub open spec fn menu_columns(options: Seq<Seq<char>>, selected: nat, colors: ColorConfig, width: nat)
    -> Seq<Seq<PixelView>> {
    Seq::new(width, |x: int| Seq::new(options.len(), |y: int| menu_pixel(options, selected, colors, x, y)))
}

/// One column of the option rows of an opened menu.
fn menu_column(options: &Vec<String>, selected: usize, colors: &ColorConfig, x: usize) -> (r: Vec<Pixel>)
    ensures
        crate::pixel::column(r@) == menu_columns(names(options@), selected as nat, *colors, (x + 1) as nat)[x as int],
{
    let mut col: Vec<Pixel> = Vec::new();
    let mut y: usize = 0;
    while y < options.len()
        invariant
            y <= options@.len(),
            crate::pixel::column(col@) == Seq::new(y as nat, |k: int| menu_pixel(names(options@), selected as nat, *colors, x as int, k)),
        decreases options@.len() - y,
    {
        let fg = if y == selected { colors.selection_fg_color.value } else { colors.fg_color.value };
        let bg = if y == selected { colors.selection_bg_color.value } else { colors.bg_color.value };
        let len = options[y].as_str().unicode_len();
        let symbol = if x < len { string_of_char(options[y].as_str().get_char(x)) } else {
            string_of_char(' ')
        };
        let ghost before = col@;
        col.push(Pixel::new(symbol, fg, bg));
        proof {
            assert(names(options@)[y as int] == options@[y as int]@);
            assert(crate::pixel::column(col@) =~= crate::pixel::column(before).push(
                menu_pixel(names(options@), selected as nat, *colors, x as int, y as int)));
            assert(crate::pixel::column(col@) =~= Seq::new((y + 1) as nat, |k: int|
                menu_pixel(names(options@), selected as nat, *colors, x as int, k)));
        }
        y = y + 1;
    }
    assert(names(options@).len() == options@.len());
    assert(crate::pixel::column(col@) =~= menu_columns(names(options@), selected as nat, *colors, (x + 1) as nat)[x as int]);
    col
}

/// Draw an opened menu: a row for each option in the order shown, the highlighted one in
/// the selection colors, then the padding in the menu's own colors, then the border.
pub fn get_menu_contents(state: &DroppedDownMenuState) -> (r: PixelMap)
    ensures
        grid(&r) == framed(padded(menu_columns(dropped_down_options(state.choice.value@,
            state.allow_none.value, names(state.options@)), state.dropped_down_selected_row as nat,
            state.colors, effective_size_of(state.size, state.border_config, state.padding).width as nat),
            state.padding.padding_top.value as nat, state.padding.padding_bottom.value as nat,
            state.padding.padding_left.value as nat, state.padding.padding_right.value as nat,
            space_pixel(state.colors.fg_color.value, state.colors.bg_color.value)),
            state.border_config, state.colors),
{
    let options = state.get_dropped_down_options();
    let width = get_effective_size(&state.size, &state.border_config, &state.padding).width;
    let mut contents: PixelMap = Vec::new();
    let mut x: usize = 0;
    while x < width
        invariant
            x <= width,
            grid(&contents) == menu_columns(names(options@), state.dropped_down_selected_row as nat,
                state.colors, width as nat).take(x as int),
        decreases width - x,
    {
        let col = menu_column(&options, state.dropped_down_selected_row, &state.colors, x);
        let ghost before = contents@;
        let ghost c = col;
        contents.push(col);
        proof {
            crate::pixel::lemma_grid_push(before, c);
            assert(menu_columns(names(options@), state.dropped_down_selected_row as nat, state.colors,
                (x + 1) as nat)[x as int] == menu_columns(names(options@), state.dropped_down_selected_row as nat,
                state.colors, width as nat)[x as int]);
            assert(grid(&contents) =~= menu_columns(names(options@), state.dropped_down_selected_row as nat,
                state.colors, width as nat).take(x + 1));
        }
        x = x + 1;
    }
    assert(grid(&contents) =~= menu_columns(names(options@), state.dropped_down_selected_row as nat,
        state.colors, width as nat));
    let padded_contents = add_padding(contents, &state.padding, state.colors.bg_color.value,
        state.colors.fg_color.value);
    add_border(padded_contents, &state.border_config, &state.colors)
}

/// The longest byte length among some strings, 0 when there are none.
pub open spec fn max_utf8_len(v: Seq<Seq<char>>) -> nat
    decreases v.len(),
{
    if v.len() == 0 { 0 } else {
        let rest = max_utf8_len(v.drop_last());
        if utf8_len(v.last()) > rest { utf8_len(v.last()) } else { rest }
    }
}

/// The longest byte length among some strings.
fn longest_option(options: &Vec<String>) -> (r: usize)
    ensures
        r as nat == max_utf8_len(names(options@)),
{
    let mut best: usize = 0;
    let mut i: usize = 0;
    while i < options.len()
        invariant
            i <= options@.len(),
            best as nat == max_utf8_len(names(options@.take(i as int))),
        decreases options@.len() - i,
    {
        let n = byte_len(&options[i]);
        assert(names(options@.take(i + 1)).drop_last() =~= names(options@.take(i as int)));
        assert(names(options@.take(i + 1)).last() == options@[i as int]@);
        if n > best {
            best = n;
        }
        i = i + 1;
    }
    assert(options@.take(options@.len() as int) =~= options@);
    best
}

/// The choice a dropdown shows: its choice, or its first option when it has no choice and
/// the empty choice is not allowed.
pub open spec fn shown_choice(s: DropdownState) -> Seq<char> {
    if s.choice.value@.len() == 0 && !s.allow_none.value { s.options@[0]@ } else { s.choice.value@ }
}

/// Number of columns a closed dropdown writes: the longest option's byte length when it
/// follows its content or may grow without bound, else its effective width.
pub open spec fn dropdown_write_width(s: DropdownState) -> nat {
    if s.infinite_size.width || s.auto_scale.auto_scale_width.value {
        max_utf8_len(names(s.options@))
    } else {
        effective_size_of(s.size, s.border_config, s.padding).width as nat
    }
}

/// The columns of a closed dropdown: the characters of the choice, then spaces.
pub open spec fn label_columns(text: Seq<char>, width: nat, fg: Color, bg: Color) -> Seq<Seq<PixelView>> {
    Seq::new(width, |x: int| seq![plain_pixel(if x < text.len() { seq![text[x]] } else { seq![' '] }, fg, bg)])
}

/// Draw a closed dropdown: its choice, which becomes its first option when it had none and
/// the empty choice is not allowed, written over its width in its context colors, inside a
/// border. A dropdown that follows its content takes the width written; the effective
/// height becomes one row.
pub fn get_dropdown_contents(state: &mut DropdownState) -> (r: PixelMap)
    requires
        old(state).choice.value@.len() == 0 && !old(state).allow_none.value ==> old(state).options@.len() > 0,
        old(state).auto_scale.auto_scale_width.value ==> outer_length(dropdown_write_width(*old(state)),
            old(state).border_config.border.value, old(state).padding.padding_left.value as nat,
            old(state).padding.padding_right.value as nat) <= usize::MAX,
        outer_length(1, old(state).border_config.border.value, old(state).padding.padding_top.value as nat,
            old(state).padding.padding_bottom.value as nat) <= usize::MAX,
    ensures
        grid(&r) == framed(label_columns(shown_choice(*old(state)), dropdown_write_width(*old(state)),
            context_colors(old(state).disabled.value, old(state).selected, old(state).colors).0,
            context_colors(old(state).disabled.value, old(state).selected, old(state).colors).1),
            old(state).border_config, old(state).colors),
        final(state).choice.value@ == shown_choice(*old(state)),
        final(state).size.height.value as nat == outer_length(1, old(state).border_config.border.value,
            old(state).padding.padding_top.value as nat, old(state).padding.padding_bottom.value as nat),
        final(state).size.width.value as nat == if old(state).auto_scale.auto_scale_width.value {
            outer_length(dropdown_write_width(*old(state)), old(state).border_config.border.value,
                old(state).padding.padding_left.value as nat, old(state).padding.padding_right.value as nat)
        } else { old(state).size.width.value as nat },
        *final(state) == (DropdownState {
            choice: EzProperty { name: old(state).choice.name, value: final(state).choice.value },
            size: StateSize {
                width: EzProperty { name: old(state).size.width.name, value: final(state).size.width.value },
                height: EzProperty { name: old(state).size.height.name, value: final(state).size.height.value },
            },
            ..*old(state) }),
{
    if state.choice.value.as_str().unicode_len() == 0 && !state.allow_none.value {
        let first = state.options[0].clone();
        state.set_choice(first);
    }
    let (fg, bg) = state.get_context_colors();
    let write_width = if state.infinite_size.width || state.auto_scale.auto_scale_width.value {
        longest_option(&state.options)
    } else {
        state.get_effective_size().width
    };
    let text = state.choice.value.clone();
    let len = text.as_str().unicode_len();
    let mut contents: PixelMap = Vec::new();
    let mut x: usize = 0;
    while x < write_width
        invariant
            x <= write_width,
            len == text@.len(),
            grid(&contents) == label_columns(text@, write_width as nat, fg, bg).take(x as int),
        decreases write_width - x,
    {
        let symbol = if x < len { string_of_char(text.as_str().get_char(x)) } else { string_of_char(' ') };
        let ghost before = contents@;
        let col = vec![Pixel::new(symbol, fg, bg)];
        let ghost c = col;
        contents.push(col);
        proof {
            crate::pixel::lemma_grid_push(before, c);
            assert(crate::pixel::column(c@) =~= label_columns(text@, write_width as nat, fg, bg)[x as int]);
            assert(grid(&contents) =~= label_columns(text@, write_width as nat, fg, bg).take(x + 1));
        }
        x = x + 1;
    }
    assert(grid(&contents) =~= label_columns(text@, write_width as nat, fg, bg));
    if state.auto_scale.auto_scale_width.value {
        state.set_effective_width(contents.len());
    }
    let r = add_border(contents, &state.border_config, &state.colors);
    state.set_effective_height(1);
    r
}

} // verus!
