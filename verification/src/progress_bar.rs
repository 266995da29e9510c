//! Progress bar widget state: a value bounded by a maximum, and the bar it draws.
use vstd::prelude::*;
use crate::pixel::{Color, Coordinates, IsizeCoordinates, Size};
use crate::scheduler::{EzProperty, SchedulerFrontend, join_name};
use crate::definitions::{StateCoordinates, StateSize, InfiniteSize, AutoScale, Padding,
    HorizontalAlignment, VerticalAlignment, BorderConfig, ColorConfig, registered_names,
    new_coordinates, new_size, new_auto_scale, new_padding, new_border, new_colors};
use crate::geometry::{effective_size_of, get_effective_size, outer_length, outer_length_of};
use crate::pixel::{Pixel, PixelMap, PixelView, plain_pixel, grid};
use crate::helpers::{add_border, add_padding, framed, padded, space_pixel};
use crate::state::{context_colors, get_context_colors, SelectableState, SelectableWidgetState};

verus! {
/// Runtime state of a progress bar widget.
#[derive(Clone, Debug)]
pub struct ProgressBarState {
    /// Path of the widget this state belongs to.
    pub path: String,
    /// Value at which the bar is full.
    pub max: EzProperty<usize>,
    /// Current value.
    pub value: EzProperty<usize>,
    /// Position relative to the parent layout.
    pub position: StateCoordinates,
    /// Absolute position on screen.
    pub absolute_position: IsizeCoordinates,
    /// Size of the widget.
    pub size: StateSize,
    /// Whether the widget may grow without bound on each axis.
    pub infinite_size: InfiniteSize,
    /// Whether the size follows the content.
    pub auto_scale: AutoScale,
    /// Space left around the widget.
    pub padding: Padding,
    /// Horizontal alignment.
    pub halign: EzProperty<HorizontalAlignment>,
    /// Vertical alignment.
    pub valign: EzProperty<VerticalAlignment>,
    /// Whether the widget cannot be interacted with.
    pub disabled: EzProperty<bool>,
    /// Order in which the widget is selected by keyboard.
    pub selection_order: EzProperty<usize>,
    /// Border of the widget.
    pub border_config: BorderConfig,
    /// Colors of the widget.
    pub colors: ColorConfig,
    /// Whether the widget is selected.
    pub selected: bool,
}

impl ProgressBarState {
    /// A state for the widget at `path`, registering its properties under that path.
    pub fn new(path: String, scheduler: &mut SchedulerFrontend) -> (r: ProgressBarState)
        ensures
            r.path == path,
            r.max.value == 100,
            r.max.name@ == path@ + "/max"@,
            r.value.value == 0,
            r.value.name@ == path@ + "/value"@,
            r.position.x.value == 0,
            r.position.y.value == 0,
            r.position.x.name@ == path@ + "/x"@,
            r.position.y.name@ == path@ + "/y"@,
            r.absolute_position == (IsizeCoordinates { x: 0, y: 0 }),
            r.size.width.value == 0,
            r.size.height.value == 0,
            r.size.width.name@ == path@ + "/width"@,
            r.size.height.name@ == path@ + "/height"@,
            r.infinite_size == (InfiniteSize { width: false, height: false }),
            r.auto_scale.auto_scale_width.value == false,
            r.auto_scale.auto_scale_height.value == false,
            r.padding.padding_top.value == 0,
            r.padding.padding_bottom.value == 0,
            r.padding.padding_left.value == 0,
            r.padding.padding_right.value == 0,
            r.halign.value == HorizontalAlignment::Left,
            r.halign.name@ == path@ + "/halign"@,
            r.valign.value == VerticalAlignment::Top,
            r.valign.name@ == path@ + "/valign"@,
            r.disabled.value == false,
            r.disabled.name@ == path@ + "/disabled"@,
            r.selection_order.value == 0,
            r.selection_order.name@ == path@ + "/selection_order"@,
            r.border_config.border.value == false,
            !r.selected,
            r.is_fresh(path),
            registered_names(*old(scheduler), *final(scheduler), r.property_names()),
    {
        let ghost start = *scheduler;
        let max: EzProperty<usize> = scheduler.new_property(join_name(&path, "/max"), 100);
        let value: EzProperty<usize> = scheduler.new_property(join_name(&path, "/value"), 0);
        let position: StateCoordinates = StateCoordinates::new(0, 0, path.clone(), scheduler);
        let absolute_position: IsizeCoordinates = IsizeCoordinates::new(0, 0);
        let size: StateSize = StateSize::new(0, 0, path.clone(), scheduler);
        let infinite_size: InfiniteSize = InfiniteSize { width: false, height: false };
        let auto_scale: AutoScale = AutoScale::new(false, false, path.clone(), scheduler);
        let padding: Padding = Padding::new(0, 0, 0, 0, path.clone(), scheduler);
        let halign: EzProperty<HorizontalAlignment> = scheduler.new_property(join_name(&path, "/halign"), HorizontalAlignment::Left);
        let valign: EzProperty<VerticalAlignment> = scheduler.new_property(join_name(&path, "/valign"), VerticalAlignment::Top);
        let disabled: EzProperty<bool> = scheduler.new_property(join_name(&path, "/disabled"), false);
        let selection_order: EzProperty<usize> = scheduler.new_property(join_name(&path, "/selection_order"), 0);
        let border_config: BorderConfig = BorderConfig::new(false, path.clone(), scheduler);
        let colors: ColorConfig = ColorConfig::new(path.clone(), scheduler);
        let selected: bool = false;
        let r = ProgressBarState { path, max, value, position, absolute_position, size, infinite_size, auto_scale, padding, halign, valign, disabled, selection_order, border_config, colors, selected };
        assert(scheduler.properties@ =~= start.properties@ + seq![r.max.name, r.value.name, r.position.x.name, r.position.y.name, r.size.width.name, r.size.height.name, r.auto_scale.auto_scale_width.name, r.auto_scale.auto_scale_height.name, r.padding.padding_top.name, r.padding.padding_bottom.name, r.padding.padding_left.name, r.padding.padding_right.name, r.halign.name, r.valign.name, r.disabled.name, r.selection_order.name, r.border_config.border.name, r.border_config.horizontal_symbol.name, r.border_config.vertical_symbol.name, r.border_config.top_left_symbol.name, r.border_config.top_right_symbol.name, r.border_config.bottom_left_symbol.name, r.border_config.bottom_right_symbol.name, r.colors.fg_color.name, r.colors.bg_color.name, r.colors.selection_fg_color.name, r.colors.selection_bg_color.name, r.colors.disabled_fg_color.name, r.colors.disabled_bg_color.name, r.colors.active_fg_color.name, r.colors.active_bg_color.name, r.colors.flash_fg_color.name, r.colors.flash_bg_color.name, r.colors.tab_fg_color.name, r.colors.tab_bg_color.name, r.colors.tab_border_fg_color.name, r.colors.tab_border_bg_color.name, r.colors.filler_fg_color.name, r.colors.filler_bg_color.name, r.colors.border_fg_color.name, r.colors.border_bg_color.name, r.colors.cursor_color.name]);
        r
    }

    /// Whether this is the state [`ProgressBarState::new`] builds for the widget at `path`.
    pub open spec fn is_fresh(&self, path: String) -> bool {
        &&& self.path == path
        &&& self.max.value == 100
        &&& self.max.name@ == path@ + "/max"@
        &&& self.value.value == 0
        &&& self.value.name@ == path@ + "/value"@
        &&& self.position.x.value == 0
        &&& self.position.y.value == 0
        &&& self.position.x.name@ == path@ + "/x"@
        &&& self.position.y.name@ == path@ + "/y"@
        &&& new_coordinates(self.position, 0, 0, path@)
        &&& self.absolute_position == (IsizeCoordinates { x: 0, y: 0 })
        &&& self.size.width.value == 0
        &&& self.size.height.value == 0
        &&& self.size.width.name@ == path@ + "/width"@
        &&& self.size.height.name@ == path@ + "/height"@
        &&& new_size(self.size, 0, 0, path@)
        &&& self.infinite_size == (InfiniteSize { width: false, height: false })
        &&& self.auto_scale.auto_scale_width.value == false
        &&& self.auto_scale.auto_scale_height.value == false
        &&& new_auto_scale(self.auto_scale, false, false, path@)
        &&& self.padding.padding_top.value == 0
        &&& self.padding.padding_bottom.value == 0
        &&& self.padding.padding_left.value == 0
        &&& self.padding.padding_right.value == 0
        &&& new_padding(self.padding, 0, 0, 0, 0, path@)
        &&& self.halign.value == HorizontalAlignment::Left
        &&& self.halign.name@ == path@ + "/halign"@
        &&& self.valign.value == VerticalAlignment::Top
        &&& self.valign.name@ == path@ + "/valign"@
        &&& self.disabled.value == false
        &&& self.disabled.name@ == path@ + "/disabled"@
        &&& self.selection_order.value == 0
        &&& self.selection_order.name@ == path@ + "/selection_order"@
        &&& self.border_config.border.value == false
        &&& new_border(self.border_config, false, path@)
        &&& new_colors(self.colors, path@, Color::Black)
        &&& !self.selected
    }

    /// The names of the properties of this state, in the order [`ProgressBarState::new`] registers them.
    pub open spec fn property_names(&self) -> Seq<String> {
        seq![self.max.name, self.value.name, self.position.x.name, self.position.y.name, self.size.width.name, self.size.height.name, self.auto_scale.auto_scale_width.name, self.auto_scale.auto_scale_height.name, self.padding.padding_top.name, self.padding.padding_bottom.name, self.padding.padding_left.name, self.padding.padding_right.name, self.halign.name, self.valign.name, self.disabled.name, self.selection_order.name, self.border_config.border.name, self.border_config.horizontal_symbol.name, self.border_config.vertical_symbol.name, self.border_config.top_left_symbol.name, self.border_config.top_right_symbol.name, self.border_config.bottom_left_symbol.name, self.border_config.bottom_right_symbol.name, self.colors.fg_color.name, self.colors.bg_color.name, self.colors.selection_fg_color.name, self.colors.selection_bg_color.name, self.colors.disabled_fg_color.name, self.colors.disabled_bg_color.name, self.colors.active_fg_color.name, self.colors.active_bg_color.name, self.colors.flash_fg_color.name, self.colors.flash_bg_color.name, self.colors.tab_fg_color.name, self.colors.tab_bg_color.name, self.colors.tab_border_fg_color.name, self.colors.tab_border_bg_color.name, self.colors.filler_fg_color.name, self.colors.filler_bg_color.name, self.colors.border_fg_color.name, self.colors.border_bg_color.name, self.colors.cursor_color.name]
    }
}
impl ProgressBarState {
    /// The size left for content inside the border and padding.
    pub fn get_effective_size(&self) -> (r: Size)
        ensures
            r == effective_size_of(self.size, self.border_config, self.padding),
    {
        get_effective_size(&self.size, &self.border_config, &self.padding)
    }

    /// Set the width so that `width` columns are left for content inside the border and
    /// padding.
    pub fn set_effective_width(&mut self, width: usize)
        requires
            outer_length(width as nat, old(self).border_config.border.value,
                old(self).padding.padding_left.value as nat,
                old(self).padding.padding_right.value as nat) <= usize::MAX,
        ensures
            final(self).size.width.value as nat == outer_length(width as nat,
                old(self).border_config.border.value, old(self).padding.padding_left.value as nat,
                old(self).padding.padding_right.value as nat),
            *final(self) == (ProgressBarState { size: StateSize { width: EzProperty {
                name: old(self).size.width.name, value: final(self).size.width.value },
                ..old(self).size }, ..*old(self) }),
    {
        let w = outer_length_of(width, self.border_config.border.value,
            self.padding.padding_left.value, self.padding.padding_right.value);
        self.size.width.set(w);
    }

    /// Set the height so that `height` rows are left for content inside the border and
    /// padding.
    pub fn set_effective_height(&mut self, height: usize)
        requires
            outer_length(height as nat, old(self).border_config.border.value,
                old(self).padding.padding_top.value as nat,
                old(self).padding.padding_bottom.value as nat) <= usize::MAX,
        ensures
            final(self).size.height.value as nat == outer_length(height as nat,
                old(self).border_config.border.value, old(self).padding.padding_top.value as nat,
                old(self).padding.padding_bottom.value as nat),
            *final(self) == (ProgressBarState { size: StateSize { height: EzProperty {
                name: old(self).size.height.name, value: final(self).size.height.value },
                ..old(self).size }, ..*old(self) }),
    {
        let h = outer_length_of(height, self.border_config.border.value,
            self.padding.padding_top.value, self.padding.padding_bottom.value);
        self.size.height.set(h);
    }

    /// Ask for this widget to be redrawn.
    pub fn update(&self, scheduler: &mut SchedulerFrontend)
        ensures
            final(scheduler).widgets_to_update@ == old(scheduler).widgets_to_update@.push(self.path),
            *final(scheduler) == (SchedulerFrontend { widgets_to_update: final(scheduler).widgets_to_update,
                ..*old(scheduler) }),
    {
        scheduler.update_widget(self.path.clone());
    }

    /// The colors this widget is drawn in: disabled, selected or normal.
    pub fn get_context_colors(&self) -> (r: (Color, Color))
        ensures
            r == context_colors(self.disabled.value, self.selected, self.colors),
    {
        get_context_colors(self.disabled.value, self.selected, &self.colors)
    }

    /// Enable or disable the widget.
    pub fn set_disabled(&mut self, disabled: bool)
        ensures
            *final(self) == (ProgressBarState { disabled: EzProperty { name: old(self).disabled.name,
                value: disabled }, ..*old(self) }),
    {
        self.disabled.set(disabled);
    }

    /// Whether the widget is disabled.
    pub fn get_disabled(&self) -> (r: bool)
        ensures
            r == self.disabled.value,
    {
        self.disabled.value
    }
}

impl SelectableState for ProgressBarState {
    open spec fn is_selected(&self) -> bool {
        self.selected
    }

    fn set_selected(&mut self, state: bool) {
        self.selected = state;
    }

    fn get_selected(&self) -> (r: bool) {
        self.selected
    }
}

impl SelectableWidgetState for ProgressBarState {
    open spec fn is_selected(&self) -> bool {
        self.selected
    }

    fn set_selected(&mut self, state: bool) {
        self.selected = state;
    }

    fn get_selected(&self) -> (r: bool) {
        self.selected
    }
}

/// A progress bar state with its value replaced.
pub open spec fn with_progress(s: ProgressBarState, value: usize) -> ProgressBarState {
    ProgressBarState { value: EzProperty { name: s.value.name, value }, ..s }
}

/// A progress bar whose value does not exceed its maximum.
pub open spec fn progress_valid(s: ProgressBarState) -> bool {
    s.value.value <= s.max.value
}

/// The smaller of two values.
pub open spec fn clamped(value: usize, max: usize) -> usize {
    if value > max { max } else { value }
}

impl ProgressBarState {
    /// Set the value; a value above the maximum is lowered to the maximum.
    pub fn set_value(&mut self, value: usize)
        ensures
            *final(self) == with_progress(*old(self), clamped(value, old(self).max.value)),
    {
        let v = if value > self.max.value { self.max.value } else { value };
        self.value.set(v);
    }

    /// The value.
    pub fn get_value(&self) -> (r: usize)
        ensures
            r == self.value.value,
    {
        self.value.value
    }

    /// Set the maximum; a value above the new maximum is lowered to it.
    pub fn set_max(&mut self, max_value: usize)
        ensures
            *final(self) == (ProgressBarState {
                max: EzProperty { name: old(self).max.name, value: max_value },
                value: EzProperty { name: old(self).value.name,
                    value: clamped(old(self).value.value, max_value) },
                ..*old(self) }),
    {
        if self.value.value > max_value {
            self.value.set(max_value);
        }
        self.max.set(max_value);
    }

    /// The maximum.
    pub fn get_max(&self) -> (r: usize)
        ensures
            r == self.max.value,
    {
        self.max.value
    }
}

/// Setting the value or the maximum always leaves the value at most the maximum, and a value
/// that fits is kept as it is.
pub proof fn lemma_progress_stays_within_max(s: ProgressBarState, value: usize, max: usize)
    ensures
        progress_valid(with_progress(s, clamped(value, s.max.value))),
        value <= s.max.value ==> with_progress(s, clamped(value, s.max.value)).value.value == value,
        clamped(s.value.value, max) <= max,
        progress_valid(s) && s.max.value <= max ==> clamped(s.value.value, max) == s.value.value,
{
}

/// The symbol of column `x` of a bar whose filled part ends at `value_pos`: full up to and
/// including `value_pos` (none when `value_pos` is 0), light shade after.
pub open spec fn bar_symbol(x: int, value_pos: nat) -> Seq<char> {
    if value_pos != 0 && x <= value_pos { "\u{2588}"@ } else { "\u{2591}"@ }
}

/// The bar itself: one row of `width` columns.
pub open spec fn bar_columns(width: nat, value_pos: nat, fg: Color, bg: Color) -> Seq<Seq<PixelView>> {
    Seq::new(width, |x: int| seq![plain_pixel(bar_symbol(x, value_pos), fg, bg)])
}

/// What a progress bar shows: the bar, its border when it has one, then the padding in the
/// parent's colors.
pub open spec fn progress_bar_view(s: ProgressBarState, width: nat, value_pos: nat,
    parent_fg: Color, parent_bg: Color) -> Seq<Seq<PixelView>> {
    let bar = bar_columns(width, value_pos, s.colors.fg_color.value, s.colors.bg_color.value);
    let with_border = if s.border_config.border.value { framed(bar, s.border_config, s.colors) } else { bar };
    padded(with_border, s.padding.padding_top.value as nat, s.padding.padding_bottom.value as nat,
        s.padding.padding_left.value as nat, s.padding.padding_right.value as nat,
        space_pixel(parent_fg, parent_bg))
}

/// Draw a progress bar. Its height becomes one row; `value_pos` is the column at which the
/// filled part ends, the effective width less one scaled by the value over the maximum.
pub fn get_progress_bar_contents(state: &mut ProgressBarState, value_pos: usize, parent_fg: Color,
    parent_bg: Color) -> (r: PixelMap)
    ensures
        *final(state) == (ProgressBarState { size: StateSize { height: EzProperty {
            name: old(state).size.height.name, value: 1 }, ..old(state).size }, ..*old(state) }),
        grid(&r) == progress_bar_view(*old(state),
            effective_size_of(final(state).size, old(state).border_config, old(state).padding).width as nat,
            value_pos as nat, parent_fg, parent_bg),
{
    state.size.set_height(1);
    let width = state.get_effective_size().width;
    let fg = state.colors.fg_color.value;
    let bg = state.colors.bg_color.value;
    let mut contents: PixelMap = Vec::new();
    let mut x: usize = 0;
    while x < width
        invariant
            x <= width,
            contents@.len() == x,
            grid(&contents) == bar_columns(width as nat, value_pos as nat, fg, bg).take(x as int),
        decreases width - x,
    {
        let symbol = if value_pos != 0 && x <= value_pos {
            String::from_str("\u{2588}")
        } else {
            String::from_str("\u{2591}")
        };
        assert(symbol@ == bar_symbol(x as int, value_pos as nat));
        let ghost before = contents@;
        let col = vec![Pixel::new(symbol, fg, bg)];
        assert(crate::pixel::column(col@) =~= seq![plain_pixel(bar_symbol(x as int, value_pos as nat), fg, bg)]);
        let ghost c = col;
        contents.push(col);
        proof {
            crate::pixel::lemma_grid_push(before, c);
            assert(grid(&contents) =~= bar_columns(width as nat, value_pos as nat, fg, bg).take(x + 1));
        }
        x = x + 1;
    }
    assert(grid(&contents) =~= bar_columns(width as nat, value_pos as nat, fg, bg));
    if state.border_config.border.value {
        contents = add_border(contents, &state.border_config, &state.colors);
    }
    add_padding(contents, &state.padding, parent_bg, parent_fg)
}

/// A progress bar widget.
pub struct ProgressBar {
    /// Identifier of the widget within its layout.
    pub id: String,
    /// Full path of the widget, e.g. "/root/layout/bar".
    pub path: String,
    /// Runtime state.
    pub state: ProgressBarState,
}

impl ProgressBar {
    /// A progress bar with a fresh state registered under `path`.
    pub fn new(id: String, path: String, scheduler: &mut SchedulerFrontend) -> (r: ProgressBar)
        ensures
            r.id == id,
            r.path == path,
            r.state.path == path,
            r.state.value.value == 0,
            r.state.max.value == 100,
            r.state.is_fresh(path),
            registered_names(*old(scheduler), *final(scheduler), r.state.property_names()),
    {
        let state = ProgressBarState::new(path.clone(), scheduler);
        ProgressBar { id, path, state }
    }
}

} // verus!
