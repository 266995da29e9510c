//! Slider widget state: validity of the configuration and stepping the value.
use vstd::prelude::*;
use crate::pixel::{Color, Coordinates, IsizeCoordinates, Size};
use crate::scheduler::{EzProperty, SchedulerFrontend, join_name};
use crate::definitions::{StateCoordinates, StateSize, InfiniteSize, AutoScale, Padding,
    HorizontalAlignment, VerticalAlignment, BorderConfig, ColorConfig, registered_names,
    new_coordinates, new_size, new_auto_scale, new_padding, new_border, new_colors};
use crate::geometry::{effective_size_of, get_effective_size, outer_length, outer_length_of};
use crate::state::{context_colors, get_context_colors, SelectableState, SelectableWidgetState};

verus! {
/// Runtime state of a slider widget.
#[derive(Clone, Debug)]
pub struct SliderState {
    /// Path of the widget this state belongs to.
    pub path: String,
    /// Current value.
    pub value: EzProperty<usize>,
    /// Lowest value.
    pub minimum: EzProperty<usize>,
    /// Highest value.
    pub maximum: EzProperty<usize>,
    /// Amount the value changes by with each step.
    pub step: EzProperty<usize>,
    /// Position relative to the parent layout.
    pub position: StateCoordinates,
    /// Absolute position on screen.
    pub absolute_position: IsizeCoordinates,
    /// Size of the widget.
    pub size: StateSize,
    /// Whether the widget may grow without bound on each axis.
    pub infinite_size: InfiniteSize,
    /// Whether the size follows the content.
    pub auto_scale: AutoScale,
    /// Space left around the widget.
    pub padding: Padding,
    /// Horizontal alignment.
    pub halign: EzProperty<HorizontalAlignment>,
    /// Vertical alignment.
    pub valign: EzProperty<VerticalAlignment>,
    /// Whether the widget cannot be interacted with.
    pub disabled: EzProperty<bool>,
    /// Order in which the widget is selected by keyboard.
    pub selection_order: EzProperty<usize>,
    /// Border of the widget.
    pub border_config: BorderConfig,
    /// Colors of the widget.
    pub colors: ColorConfig,
    /// Whether the widget is selected.
    pub selected: bool,
}

impl SliderState {
    /// A state for the widget at `path`, registering its properties under that path.
    pub fn new(path: String, scheduler: &mut SchedulerFrontend) -> (r: SliderState)
        ensures
            r.path == path,
            r.value.value == 0,
            r.value.name@ == path@ + "/value"@,
            r.minimum.value == 0,
            r.minimum.name@ == path@ + "/minimum"@,
            r.maximum.value == 100,
            r.maximum.name@ == path@ + "/maximum"@,
            r.step.value == 1,
            r.step.name@ == path@ + "/step"@,
            r.position.x.value == 0,
            r.position.y.value == 0,
            r.position.x.name@ == path@ + "/x"@,
            r.position.y.name@ == path@ + "/y"@,
            r.absolute_position == (IsizeCoordinates { x: 0, y: 0 }),
            r.size.width.value == 0,
            r.size.height.value == 0,
            r.size.width.name@ == path@ + "/width"@,
            r.size.height.name@ == path@ + "/height"@,
            r.infinite_size == (InfiniteSize { width: false, height: false }),
            r.auto_scale.auto_scale_width.value == false,
            r.auto_scale.auto_scale_height.value == false,
            r.padding.padding_top.value == 0,
            r.padding.padding_bottom.value == 0,
            r.padding.padding_left.value == 0,
            r.padding.padding_right.value == 0,
            r.halign.value == HorizontalAlignment::Left,
            r.halign.name@ == path@ + "/halign"@,
            r.valign.value == VerticalAlignment::Top,
            r.valign.name@ == path@ + "/valign"@,
            r.disabled.value == false,
            r.disabled.name@ == path@ + "/disabled"@,
            r.selection_order.value == 0,
            r.selection_order.name@ == path@ + "/selection_order"@,
            r.border_config.border.value == false,
            !r.selected,
            r.is_fresh(path),
            registered_names(*old(scheduler), *final(scheduler), r.property_names()),
    {
        let ghost start = *scheduler;
        let value: EzProperty<usize> = scheduler.new_property(join_name(&path, "/value"), 0);
        let minimum: EzProperty<usize> = scheduler.new_property(join_name(&path, "/minimum"), 0);
        let maximum: EzProperty<usize> = scheduler.new_property(join_name(&path, "/maximum"), 100);
        let step: EzProperty<usize> = scheduler.new_property(join_name(&path, "/step"), 1);
        let position: StateCoordinates = StateCoordinates::new(0, 0, path.clone(), scheduler);
        let absolute_position: IsizeCoordinates = IsizeCoordinates::new(0, 0);
        let size: StateSize = StateSize::new(0, 0, path.clone(), scheduler);
        let infinite_size: InfiniteSize = InfiniteSize { width: false, height: false };
        let auto_scale: AutoScale = AutoScale::new(false, false, path.clone(), scheduler);
        let padding: Padding = Padding::new(0, 0, 0, 0, path.clone(), scheduler);
        let halign: EzProperty<HorizontalAlignment> = scheduler.new_property(join_name(&path, "/halign"), HorizontalAlignment::Left);
        let valign: EzProperty<VerticalAlignment> = scheduler.new_property(join_name(&path, "/valign"), VerticalAlignment::Top);
        let disabled: EzProperty<bool> = scheduler.new_property(join_name(&path, "/disabled"), false);
        let selection_order: EzProperty<usize> = scheduler.new_property(join_name(&path, "/selection_order"), 0);
        let border_config: BorderConfig = BorderConfig::new(false, path.clone(), scheduler);
        let colors: ColorConfig = ColorConfig::new(path.clone(), scheduler);
        let selected: bool = false;
        let r = SliderState { path, value, minimum, maximum, step, position, absolute_position, size, infinite_size, auto_scale, padding, halign, valign, disabled, selection_order, border_config, colors, selected };
        assert(scheduler.properties@ =~= start.properties@ + seq![r.value.name, r.minimum.name, r.maximum.name, r.step.name, r.position.x.name, r.position.y.name, r.size.width.name, r.size.height.name, r.auto_scale.auto_scale_width.name, r.auto_scale.auto_scale_height.name, r.padding.padding_top.name, r.padding.padding_bottom.name, r.padding.padding_left.name, r.padding.padding_right.name, r.halign.name, r.valign.name, r.disabled.name, r.selection_order.name, r.border_config.border.name, r.border_config.horizontal_symbol.name, r.border_config.vertical_symbol.name, r.border_config.top_left_symbol.name, r.border_config.top_right_symbol.name, r.border_config.bottom_left_symbol.name, r.border_config.bottom_right_symbol.name, r.colors.fg_color.name, r.colors.bg_color.name, r.colors.selection_fg_color.name, r.colors.selection_bg_color.name, r.colors.disabled_fg_color.name, r.colors.disabled_bg_color.name, r.colors.active_fg_color.name, r.colors.active_bg_color.name, r.colors.flash_fg_color.name, r.colors.flash_bg_color.name, r.colors.tab_fg_color.name, r.colors.tab_bg_color.name, r.colors.tab_border_fg_color.name, r.colors.tab_border_bg_color.name, r.colors.filler_fg_color.name, r.colors.filler_bg_color.name, r.colors.border_fg_color.name, r.colors.border_bg_color.name, r.colors.cursor_color.name]);
        r
    }

    /// Whether this is the state [`SliderState::new`] builds for the widget at `path`.
    pub open spec fn is_fresh(&self, path: String) -> bool {
        &&& self.path == path
        &&& self.value.value == 0
        &&& self.value.name@ == path@ + "/value"@
        &&& self.minimum.value == 0
        &&& self.minimum.name@ == path@ + "/minimum"@
        &&& self.maximum.value == 100
        &&& self.maximum.name@ == path@ + "/maximum"@
        &&& self.step.value == 1
        &&& self.step.name@ == path@ + "/step"@
        &&& self.position.x.value == 0
        &&& self.position.y.value == 0
        &&& self.position.x.name@ == path@ + "/x"@
        &&& self.position.y.name@ == path@ + "/y"@
        &&& new_coordinates(self.position, 0, 0, path@)
        &&& self.absolute_position == (IsizeCoordinates { x: 0, y: 0 })
        &&& self.size.width.value == 0
        &&& self.size.height.value == 0
        &&& self.size.width.name@ == path@ + "/width"@
        &&& self.size.height.name@ == path@ + "/height"@
        &&& new_size(self.size, 0, 0, path@)
        &&& self.infinite_size == (InfiniteSize { width: false, height: false })
        &&& self.auto_scale.auto_scale_width.value == false
        &&& self.auto_scale.auto_scale_height.value == false
        &&& new_auto_scale(self.auto_scale, false, false, path@)
        &&& self.padding.padding_top.value == 0
        &&& self.padding.padding_bottom.value == 0
        &&& self.padding.padding_left.value == 0
        &&& self.padding.padding_right.value == 0
        &&& new_padding(self.padding, 0, 0, 0, 0, path@)
        &&& self.halign.value == HorizontalAlignment::Left
        &&& self.halign.name@ == path@ + "/halign"@
        &&& self.valign.value == VerticalAlignment::Top
        &&& self.valign.name@ == path@ + "/valign"@
        &&& self.disabled.value == false
        &&& self.disabled.name@ == path@ + "/disabled"@
        &&& self.selection_order.value == 0
        &&& self.selection_order.name@ == path@ + "/selection_order"@
        &&& self.border_config.border.value == false
        &&& new_border(self.border_config, false, path@)
        &&& new_colors(self.colors, path@, Color::Black)
        &&& !self.selected
    }

    /// The names of the properties of this state, in the order [`SliderState::new`] registers them.
    pub open spec fn property_names(&self) -> Seq<String> {
        seq![self.value.name, self.minimum.name, self.maximum.name, self.step.name, self.position.x.name, self.position.y.name, self.size.width.name, self.size.height.name, self.auto_scale.auto_scale_width.name, self.auto_scale.auto_scale_height.name, self.padding.padding_top.name, self.padding.padding_bottom.name, self.padding.padding_left.name, self.padding.padding_right.name, self.halign.name, self.valign.name, self.disabled.name, self.selection_order.name, self.border_config.border.name, self.border_config.horizontal_symbol.name, self.border_config.vertical_symbol.name, self.border_config.top_left_symbol.name, self.border_config.top_right_symbol.name, self.border_config.bottom_left_symbol.name, self.border_config.bottom_right_symbol.name, self.colors.fg_color.name, self.colors.bg_color.name, self.colors.selection_fg_color.name, self.colors.selection_bg_color.name, self.colors.disabled_fg_color.name, self.colors.disabled_bg_color.name, self.colors.active_fg_color.name, self.colors.active_bg_color.name, self.colors.flash_fg_color.name, self.colors.flash_bg_color.name, self.colors.tab_fg_color.name, self.colors.tab_bg_color.name, self.colors.tab_border_fg_color.name, self.colors.tab_border_bg_color.name, self.colors.filler_fg_color.name, self.colors.filler_bg_color.name, self.colors.border_fg_color.name, self.colors.border_bg_color.name, self.colors.cursor_color.name]
    }
}
impl SliderState {
    /// The size left for content inside the border and padding.
    pub fn get_effective_size(&self) -> (r: Size)
        ensures
            r == effective_size_of(self.size, self.border_config, self.padding),
    {
        get_effective_size(&self.size, &self.border_config, &self.padding)
    }

    /// Set the width so that `width` columns are left for content inside the border and
    /// padding.
    pub fn set_effective_width(&mut self, width: usize)
        requires
            outer_length(width as nat, old(self).border_config.border.value,
                old(self).padding.padding_left.value as nat,
                old(self).padding.padding_right.value as nat) <= usize::MAX,
        ensures
            final(self).size.width.value as nat == outer_length(width as nat,
                old(self).border_config.border.value, old(self).padding.padding_left.value as nat,
                old(self).padding.padding_right.value as nat),
            *final(self) == (SliderState { size: StateSize { width: EzProperty {
                name: old(self).size.width.name, value: final(self).size.width.value },
                ..old(self).size }, ..*old(self) }),
    {
        let w = outer_length_of(width, self.border_config.border.value,
            self.padding.padding_left.value, self.padding.padding_right.value);
        self.size.width.set(w);
    }

    /// Set the height so that `height` rows are left for content inside the border and
    /// padding.
    pub fn set_effective_height(&mut self, height: usize)
        requires
            outer_length(height as nat, old(self).border_config.border.value,
                old(self).padding.padding_top.value as nat,
                old(self).padding.padding_bottom.value as nat) <= usize::MAX,
        ensures
            final(self).size.height.value as nat == outer_length(height as nat,
                old(self).border_config.border.value, old(self).padding.padding_top.value as nat,
                old(self).padding.padding_bottom.value as nat),
            *final(self) == (SliderState { size: StateSize { height: EzProperty {
                name: old(self).size.height.name, value: final(self).size.height.value },
                ..old(self).size }, ..*old(self) }),
    {
        let h = outer_length_of(height, self.border_config.border.value,
            self.padding.padding_top.value, self.padding.padding_bottom.value);
        self.size.height.set(h);
    }

    /// Ask for this widget to be redrawn.
    pub fn update(&self, scheduler: &mut SchedulerFrontend)
        ensures
            final(scheduler).widgets_to_update@ == old(scheduler).widgets_to_update@.push(self.path),
            *final(scheduler) == (SchedulerFrontend { widgets_to_update: final(scheduler).widgets_to_update,
                ..*old(scheduler) }),
    {
        scheduler.update_widget(self.path.clone());
    }

    /// The colors this widget is drawn in: disabled, selected or normal.
    pub fn get_context_colors(&self) -> (r: (Color, Color))
        ensures
            r == context_colors(self.disabled.value, self.selected, self.colors),
    {
        get_context_colors(self.disabled.value, self.selected, &self.colors)
    }

    /// Enable or disable the widget.
    pub fn set_disabled(&mut self, disabled: bool)
        ensures
            *final(self) == (SliderState { disabled: EzProperty { name: old(self).disabled.name,
                value: disabled }, ..*old(self) }),
    {
        self.disabled.set(disabled);
    }

    /// Whether the widget is disabled.
    pub fn get_disabled(&self) -> (r: bool)
        ensures
            r == self.disabled.value,
    {
        self.disabled.value
    }
}

impl SelectableState for SliderState {
    open spec fn is_selected(&self) -> bool {
        self.selected
    }

    fn set_selected(&mut self, state: bool) {
        self.selected = state;
    }

    fn get_selected(&self) -> (r: bool) {
        self.selected
    }
}

impl SelectableWidgetState for SliderState {
    open spec fn is_selected(&self) -> bool {
        self.selected
    }

    fn set_selected(&mut self, state: bool) {
        self.selected = state;
    }

    fn get_selected(&self) -> (r: bool) {
        self.selected
    }
}

/// Why a slider configuration is invalid.
#[derive(Clone, Copy, Debug, PartialEq, Eq, Structural)]
pub enum SliderError {
    /// The minimum is not lower than the maximum.
    MinimumNotBelowMaximum,
    /// The step is zero.
    StepNotPositive,
    /// The minimum is not a multiple of the step.
    MinimumNotMultipleOfStep,
    /// The maximum is not a multiple of the step.
    MaximumNotMultipleOfStep,
    /// The value is not a multiple of the step.
    ValueNotMultipleOfStep,
}

/// The first problem of a slider configuration, checked in this order: minimum below
/// maximum, positive step, minimum, maximum and value multiples of the step.
pub open spec fn slider_problem(value: nat, minimum: nat, maximum: nat, step: nat) -> Option<SliderError> {
    if minimum >= maximum {
        Some(SliderError::MinimumNotBelowMaximum)
    } else if step == 0 {
        Some(SliderError::StepNotPositive)
    } else if minimum % step != 0 {
        Some(SliderError::MinimumNotMultipleOfStep)
    } else if maximum % step != 0 {
        Some(SliderError::MaximumNotMultipleOfStep)
    } else if value % step != 0 {
        Some(SliderError::ValueNotMultipleOfStep)
    } else {
        None
    }
}

/// A slider whose configuration is valid and whose value lies between its bounds.
pub open spec fn slider_valid(s: SliderState) -> bool {
    &&& slider_problem(s.value.value as nat, s.minimum.value as nat, s.maximum.value as nat,
            s.step.value as nat) is None
    &&& s.minimum.value <= s.value.value <= s.maximum.value
}

/// A slider state with its value replaced.
pub open spec fn with_value(s: SliderState, value: usize) -> SliderState {
    SliderState { value: EzProperty { name: s.value.name, value }, ..s }
}

impl SliderState {
    /// Set the value.
    pub fn set_value(&mut self, value: usize)
        ensures
            *final(self) == with_value(*old(self), value),
    {
        self.value.set(value);
    }

    /// The value.
    pub fn get_value(&self) -> (r: usize)
        ensures
            r == self.value.value,
    {
        self.value.value
    }

    /// Set the lowest value.
    pub fn set_minimum(&mut self, minimum: usize)
        ensures
            *final(self) == (SliderState { minimum: EzProperty { name: old(self).minimum.name,
                value: minimum }, ..*old(self) }),
    {
        self.minimum.set(minimum);
    }

    /// The lowest value.
    pub fn get_minimum(&self) -> (r: usize)
        ensures
            r == self.minimum.value,
    {
        self.minimum.value
    }

    /// Set the highest value.
    pub fn set_maximum(&mut self, maximum: usize)
        ensures
            *final(self) == (SliderState { maximum: EzProperty { name: old(self).maximum.name,
                value: maximum }, ..*old(self) }),
    {
        self.maximum.set(maximum);
    }

    /// The highest value.
    pub fn get_maximum(&self) -> (r: usize)
        ensures
            r == self.maximum.value,
    {
        self.maximum.value
    }

    /// Set the step.
    pub fn set_step(&mut self, step: usize)
        ensures
            *final(self) == (SliderState { step: EzProperty { name: old(self).step.name,
                value: step }, ..*old(self) }),
    {
        self.step.set(step);
    }

    /// The step.
    pub fn get_step(&self) -> (r: usize)
        ensures
            r == self.step.value,
    {
        self.step.value
    }

    /// Check the slider configuration: the minimum lies below the maximum, the step is
    /// positive, and minimum, maximum and value are multiples of the step. Returns the first
    /// problem found.
    pub fn validate(&self) -> (r: Result<(), SliderError>)
        ensures
            match slider_problem(self.value.value as nat, self.minimum.value as nat,
                self.maximum.value as nat, self.step.value as nat) {
                Some(e) => r == Err::<(), SliderError>(e),
                None => r is Ok,
            },
    {
        if self.minimum.value >= self.maximum.value {
            return Err(SliderError::MinimumNotBelowMaximum);
        }
        if self.step.value < 1 {
            return Err(SliderError::StepNotPositive);
        }
        if self.minimum.value % self.step.value != 0 {
            return Err(SliderError::MinimumNotMultipleOfStep);
        }
        if self.maximum.value % self.step.value != 0 {
            return Err(SliderError::MaximumNotMultipleOfStep);
        }
        if self.value.value % self.step.value != 0 {
            return Err(SliderError::ValueNotMultipleOfStep);
        }
        Ok(())
    }
}

/// The slider value after a left press: one step down, unless it is at the minimum.
pub open spec fn left_value(s: SliderState) -> usize {
    if s.value.value == s.minimum.value { s.value.value } else { (s.value.value - s.step.value) as usize }
}

/// The slider value after a right press: one step up, unless it is at the maximum.
pub open spec fn right_value(s: SliderState) -> usize {
    if s.value.value == s.maximum.value { s.value.value } else { (s.value.value + s.step.value) as usize }
}

/// Handle a left arrow press on a slider: lower the value by one step unless it is at the
/// minimum. Returns whether the value changed (then the caller runs the value change
/// callback, and a redraw is asked for).
pub fn handle_left(state: &mut SliderState, scheduler: &mut SchedulerFrontend) -> (changed: bool)
    requires
        old(state).value.value == old(state).minimum.value || old(state).value.value >= old(state).step.value,
    ensures
        changed == (old(state).value.value != old(state).minimum.value),
        *final(state) == with_value(*old(state), left_value(*old(state))),
        changed ==> final(scheduler).widgets_to_update@ == old(scheduler).widgets_to_update@.push(old(state).path),
        changed ==> *final(scheduler) == (SchedulerFrontend { widgets_to_update:
            final(scheduler).widgets_to_update, ..*old(scheduler) }),
        !changed ==> *final(scheduler) == *old(scheduler),
{
    if state.value.value == state.minimum.value {
        return false;
    }
    let v = state.value.value - state.step.value;
    state.set_value(v);
    state.update(scheduler);
    true
}

/// Handle a right arrow press on a slider: raise the value by one step unless it is at the
/// maximum. Returns whether the value changed (then the caller runs the value change
/// callback, and a redraw is asked for).
pub fn handle_right(state: &mut SliderState, scheduler: &mut SchedulerFrontend) -> (changed: bool)
    requires
        old(state).value.value == old(state).maximum.value
            || old(state).value.value + old(state).step.value <= usize::MAX,
    ensures
        changed == (old(state).value.value != old(state).maximum.value),
        *final(state) == with_value(*old(state), right_value(*old(state))),
        changed ==> final(scheduler).widgets_to_update@ == old(scheduler).widgets_to_update@.push(old(state).path),
        changed ==> *final(scheduler) == (SchedulerFrontend { widgets_to_update:
            final(scheduler).widgets_to_update, ..*old(scheduler) }),
        !changed ==> *final(scheduler) == *old(scheduler),
{
    if state.value.value == state.maximum.value {
        return false;
    }
    let v = state.value.value + state.step.value;
    state.set_value(v);
    state.update(scheduler);
    true
}

/// A value snapped to the nearest multiple of `step` (halfway rounds up), at most `maximum`.
pub open spec fn snapped(value: nat, step: nat, maximum: nat) -> nat {
    let r = value % step;
    let base = value / step;
    let v = if r > 0 { if 2 * r >= step { (base + 1) * step } else { base * step } } else { value };
    if v <= maximum { v } else { maximum }
}

/// Make a value a multiple of the slider step (rounding to the nearest multiple, halfway up)
/// and at most the maximum.
pub fn snap_value_to_step(value: usize, step: usize, maximum: usize) -> (r: usize)
    requires
        step > 0,
        value + step <= usize::MAX,
    ensures
        r as nat == snapped(value as nat, step as nat, maximum as nat),
{
    let remainder = value % step;
    let base = value / step;
    let mut v = value;
    if remainder > 0 {
        proof {
            vstd::arithmetic::div_mod::lemma_fundamental_div_mod(value as int, step as int);
            assert((base + 1) * step == base * step + step) by (nonlinear_arith);
            assert(base * step <= value) by (nonlinear_arith)
                requires value == step * base + remainder, remainder >= 0;
        }
        v = if remainder >= step - remainder { (base + 1) * step } else { base * step };
    }
    if v <= maximum { v } else { maximum }
}

/// A valid slider stays valid when the value moves one step left or right.
pub proof fn lemma_steps_keep_slider_valid(s: SliderState)
    requires
        slider_valid(s),
        s.value.value + s.step.value <= usize::MAX,
    ensures
        slider_valid(with_value(s, left_value(s))),
        slider_valid(with_value(s, right_value(s))),
{
    let v = s.value.value as int;
    let lo = s.minimum.value as int;
    let hi = s.maximum.value as int;
    let st = s.step.value as int;
    assert(v % st == 0 && lo % st == 0 && hi % st == 0);
    vstd::arithmetic::div_mod::lemma_fundamental_div_mod(v, st);
    vstd::arithmetic::div_mod::lemma_fundamental_div_mod(lo, st);
    vstd::arithmetic::div_mod::lemma_fundamental_div_mod(hi, st);
    if v != lo {
        // v and lo are different multiples of the step, so v - step >= lo.
        assert(v - st >= lo) by (nonlinear_arith)
            requires v == st * (v / st), lo == st * (lo / st), lo < v, st > 0;
        vstd::arithmetic::div_mod::lemma_mod_sub_multiples_vanish(v, st);
        assert((v - st) % st == 0);
    }
    if v != hi {
        assert(v + st <= hi) by (nonlinear_arith)
            requires v == st * (v / st), hi == st * (hi / st), v < hi, st > 0;
        vstd::arithmetic::div_mod::lemma_mod_add_multiples_vanish(v, st);
        assert((v + st) % st == 0);
    }
}

/// In a valid slider away from its minimum, a right press undoes a left press.
pub proof fn lemma_right_undoes_left(s: SliderState)
    requires
        slider_valid(s),
        s.value.value != s.minimum.value,
    ensures
        right_value(with_value(s, left_value(s))) == s.value.value,
{
    let v = s.value.value as int;
    let hi = s.maximum.value as int;
    let lo = s.minimum.value as int;
    let st = s.step.value as int;
    vstd::arithmetic::div_mod::lemma_fundamental_div_mod(v, st);
    vstd::arithmetic::div_mod::lemma_fundamental_div_mod(lo, st);
    assert(v - st >= lo) by (nonlinear_arith)
        requires v == st * (v / st), lo == st * (lo / st), lo < v, st > 0;
    assert(v - st != hi);
}

} // verus!
