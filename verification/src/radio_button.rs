//! Radio button widget state: pressing a button of a group.
use vstd::prelude::*;
use crate::pixel::{Color, Coordinates, IsizeCoordinates, Size};
use crate::scheduler::{EzProperty, SchedulerFrontend, join_name};
use crate::definitions::{StateCoordinates, StateSize, InfiniteSize, AutoScale, Padding,
    HorizontalAlignment, VerticalAlignment, BorderConfig, ColorConfig, registered_names,
    new_coordinates, new_size, new_auto_scale, new_padding, new_border, new_colors};
use crate::geometry::{effective_size_of, get_effective_size, outer_length, outer_length_of};
use crate::state::{context_colors, get_context_colors, SelectableState, SelectableWidgetState};

verus! {
/// Runtime state of a radio button widget.
#[derive(Clone, Debug)]
pub struct RadioButtonState {
    /// Path of the widget this state belongs to.
    pub path: String,
    /// Position relative to the parent layout.
    pub position: StateCoordinates,
    /// Absolute position on screen.
    pub absolute_position: IsizeCoordinates,
    /// Size of the widget.
    pub size: StateSize,
    /// Whether the widget may grow without bound on each axis.
    pub infinite_size: InfiniteSize,
    /// Whether the size follows the content.
    pub auto_scale: AutoScale,
    /// Space left around the widget.
    pub padding: Padding,
    /// Horizontal alignment.
    pub halign: EzProperty<HorizontalAlignment>,
    /// Vertical alignment.
    pub valign: EzProperty<VerticalAlignment>,
    /// Group of mutually exclusive radio buttons this one belongs to.
    pub group: String,
    /// Whether this radio button is the active one of its group.
    pub active: EzProperty<bool>,
    /// Whether the widget cannot be interacted with.
    pub disabled: EzProperty<bool>,
    /// Order in which the widget is selected by keyboard.
    pub selection_order: EzProperty<usize>,
    /// Border of the widget.
    pub border_config: BorderConfig,
    /// Colors of the widget.
    pub colors: ColorConfig,
    /// Whether the widget is selected.
    pub selected: bool,
}

impl RadioButtonState {
    /// A state for the widget at `path`, registering its properties under that path.
    pub fn new(path: String, scheduler: &mut SchedulerFrontend) -> (r: RadioButtonState)
        ensures
            r.path == path,
            r.position.x.value == 0,
            r.position.y.value == 0,
            r.position.x.name@ == path@ + "/x"@,
            r.position.y.name@ == path@ + "/y"@,
            r.absolute_position == (IsizeCoordinates { x: 0, y: 0 }),
            r.size.width.value == 0,
            r.size.height.value == 0,
            r.size.width.name@ == path@ + "/width"@,
            r.size.height.name@ == path@ + "/height"@,
            r.infinite_size == (InfiniteSize { width: false, height: false }),
            r.auto_scale.auto_scale_width.value == false,
            r.auto_scale.auto_scale_height.value == false,
            r.padding.padding_top.value == 0,
            r.padding.padding_bottom.value == 0,
            r.padding.padding_left.value == 0,
            r.padding.padding_right.value == 0,
            r.halign.value == HorizontalAlignment::Left,
            r.halign.name@ == path@ + "/halign"@,
            r.valign.value == VerticalAlignment::Top,
            r.valign.name@ == path@ + "/valign"@,
            r.group@ == Seq::<char>::empty(),
            r.active.value == false,
            r.active.name@ == path@ + "/active"@,
            r.disabled.value == false,
            r.disabled.name@ == path@ + "/disabled"@,
            r.selection_order.value == 0,
            r.selection_order.name@ == path@ + "/selection_order"@,
            r.border_config.border.value == false,
            !r.selected,
            r.is_fresh(path),
            registered_names(*old(scheduler), *final(scheduler), r.property_names()),
    {
        let ghost start = *scheduler;
        let position: StateCoordinates = StateCoordinates::new(0, 0, path.clone(), scheduler);
        let absolute_position: IsizeCoordinates = IsizeCoordinates::new(0, 0);
        let size: StateSize = StateSize::new(0, 0, path.clone(), scheduler);
        let infinite_size: InfiniteSize = InfiniteSize { width: false, height: false };
        let auto_scale: AutoScale = AutoScale::new(false, false, path.clone(), scheduler);
        let padding: Padding = Padding::new(0, 0, 0, 0, path.clone(), scheduler);
        let halign: EzProperty<HorizontalAlignment> = scheduler.new_property(join_name(&path, "/halign"), HorizontalAlignment::Left);
        let valign: EzProperty<VerticalAlignment> = scheduler.new_property(join_name(&path, "/valign"), VerticalAlignment::Top);
        let group: String = String::new();
        let active: EzProperty<bool> = scheduler.new_property(join_name(&path, "/active"), false);
        let disabled: EzProperty<bool> = scheduler.new_property(join_name(&path, "/disabled"), false);
        let selection_order: EzProperty<usize> = scheduler.new_property(join_name(&path, "/selection_order"), 0);
        let border_config: BorderConfig = BorderConfig::new(false, path.clone(), scheduler);
        let colors: ColorConfig = ColorConfig::new(path.clone(), scheduler);
        let selected: bool = false;
        let r = RadioButtonState { path, position, absolute_position, size, infinite_size, auto_scale, padding, halign, valign, group, active, disabled, selection_order, border_config, colors, selected };
        assert(scheduler.properties@ =~= start.properties@ + seq![r.position.x.name, r.position.y.name, r.size.width.name, r.size.height.name, r.auto_scale.auto_scale_width.name, r.auto_scale.auto_scale_height.name, r.padding.padding_top.name, r.padding.padding_bottom.name, r.padding.padding_left.name, r.padding.padding_right.name, r.halign.name, r.valign.name, r.active.name, r.disabled.name, r.selection_order.name, r.border_config.border.name, r.border_config.horizontal_symbol.name, r.border_config.vertical_symbol.name, r.border_config.top_left_symbol.name, r.border_config.top_right_symbol.name, r.border_config.bottom_left_symbol.name, r.border_config.bottom_right_symbol.name, r.colors.fg_color.name, r.colors.bg_color.name, r.colors.selection_fg_color.name, r.colors.selection_bg_color.name, r.colors.disabled_fg_color.name, r.colors.disabled_bg_color.name, r.colors.active_fg_color.name, r.colors.active_bg_color.name, r.colors.flash_fg_color.name, r.colors.flash_bg_color.name, r.colors.tab_fg_color.name, r.colors.tab_bg_color.name, r.colors.tab_border_fg_color.name, r.colors.tab_border_bg_color.name, r.colors.filler_fg_color.name, r.colors.filler_bg_color.name, r.colors.border_fg_color.name, r.colors.border_bg_color.name, r.colors.cursor_color.name]);
        r
    }

    /// Whether this is the state [`RadioButtonState::new`] builds for the widget at `path`.
    pub open spec fn is_fresh(&self, path: String) -> bool {
        &&& self.path == path
        &&& self.position.x.value == 0
        &&& self.position.y.value == 0
        &&& self.position.x.name@ == path@ + "/x"@
        &&& self.position.y.name@ == path@ + "/y"@
        &&& new_coordinates(self.position, 0, 0, path@)
        &&& self.absolute_position == (IsizeCoordinates { x: 0, y: 0 })
        &&& self.size.width.value == 0
        &&& self.size.height.value == 0
        &&& self.size.width.name@ == path@ + "/width"@
        &&& self.size.height.name@ == path@ + "/height"@
        &&& new_size(self.size, 0, 0, path@)
        &&& self.infinite_size == (InfiniteSize { width: false, height: false })
        &&& self.auto_scale.auto_scale_width.value == false
        &&& self.auto_scale.auto_scale_height.value == false
        &&& new_auto_scale(self.auto_scale, false, false, path@)
        &&& self.padding.padding_top.value == 0
        &&& self.padding.padding_bottom.value == 0
        &&& self.padding.padding_left.value == 0
        &&& self.padding.padding_right.value == 0
        &&& new_padding(self.padding, 0, 0, 0, 0, path@)
        &&& self.halign.value == HorizontalAlignment::Left
        &&& self.halign.name@ == path@ + "/halign"@
        &&& self.valign.value == VerticalAlignment::Top
        &&& self.valign.name@ == path@ + "/valign"@
        &&& self.group@ == Seq::<char>::empty()
        &&& self.active.value == false
        &&& self.active.name@ == path@ + "/active"@
        &&& self.disabled.value == false
        &&& self.disabled.name@ == path@ + "/disabled"@
        &&& self.selection_order.value == 0
        &&& self.selection_order.name@ == path@ + "/selection_order"@
        &&& self.border_config.border.value == false
        &&& new_border(self.border_config, false, path@)
        &&& new_colors(self.colors, path@, Color::Black)
        &&& !self.selected
    }

    /// The names of the properties of this state, in the order [`RadioButtonState::new`] registers them.
    pub open spec fn property_names(&self) -> Seq<String> {
        seq![self.position.x.name, self.position.y.name, self.size.width.name, self.size.height.name, self.auto_scale.auto_scale_width.name, self.auto_scale.auto_scale_height.name, self.padding.padding_top.name, self.padding.padding_bottom.name, self.padding.padding_left.name, self.padding.padding_right.name, self.halign.name, self.valign.name, self.active.name, self.disabled.name, self.selection_order.name, self.border_config.border.name, self.border_config.horizontal_symbol.name, self.border_config.vertical_symbol.name, self.border_config.top_left_symbol.name, self.border_config.top_right_symbol.name, self.border_config.bottom_left_symbol.name, self.border_config.bottom_right_symbol.name, self.colors.fg_color.name, self.colors.bg_color.name, self.colors.selection_fg_color.name, self.colors.selection_bg_color.name, self.colors.disabled_fg_color.name, self.colors.disabled_bg_color.name, self.colors.active_fg_color.name, self.colors.active_bg_color.name, self.colors.flash_fg_color.name, self.colors.flash_bg_color.name, self.colors.tab_fg_color.name, self.colors.tab_bg_color.name, self.colors.tab_border_fg_color.name, self.colors.tab_border_bg_color.name, self.colors.filler_fg_color.name, self.colors.filler_bg_color.name, self.colors.border_fg_color.name, self.colors.border_bg_color.name, self.colors.cursor_color.name]
    }
}
impl RadioButtonState {
    /// The size left for content inside the border and padding.
    pub fn get_effective_size(&self) -> (r: Size)
        ensures
            r == effective_size_of(self.size, self.border_config, self.padding),
    {
        get_effective_size(&self.size, &self.border_config, &self.padding)
    }

    /// Set the width so that `width` columns are left for content inside the border and
    /// padding.
    pub fn set_effective_width(&mut self, width: usize)
        requires
            outer_length(width as nat, old(self).border_config.border.value,
                old(self).padding.padding_left.value as nat,
                old(self).padding.padding_right.value as nat) <= usize::MAX,
        ensures
            final(self).size.width.value as nat == outer_length(width as nat,
                old(self).border_config.border.value, old(self).padding.padding_left.value as nat,
                old(self).padding.padding_right.value as nat),
            *final(self) == (RadioButtonState { size: StateSize { width: EzProperty {
                name: old(self).size.width.name, value: final(self).size.width.value },
                ..old(self).size }, ..*old(self) }),
    {
        let w = outer_length_of(width, self.border_config.border.value,
            self.padding.padding_left.value, self.padding.padding_right.value);
        self.size.width.set(w);
    }

    /// Set the height so that `height` rows are left for content inside the border and
    /// padding.
    pub fn set_effective_height(&mut self, height: usize)
        requires
            outer_length(height as nat, old(self).border_config.border.value,
                old(self).padding.padding_top.value as nat,
                old(self).padding.padding_bottom.value as nat) <= usize::MAX,
        ensures
            final(self).size.height.value as nat == outer_length(height as nat,
                old(self).border_config.border.value, old(self).padding.padding_top.value as nat,
                old(self).padding.padding_bottom.value as nat),
            *final(self) == (RadioButtonState { size: StateSize { height: EzProperty {
                name: old(self).size.height.name, value: final(self).size.height.value },
                ..old(self).size }, ..*old(self) }),
    {
        let h = outer_length_of(height, self.border_config.border.value,
            self.padding.padding_top.value, self.padding.padding_bottom.value);
        self.size.height.set(h);
    }

    /// Ask for this widget to be redrawn.
    pub fn update(&self, scheduler: &mut SchedulerFrontend)
        ensures
            final(scheduler).widgets_to_update@ == old(scheduler).widgets_to_update@.push(self.path),
            *final(scheduler) == (SchedulerFrontend { widgets_to_update: final(scheduler).widgets_to_update,
                ..*old(scheduler) }),
    {
        scheduler.update_widget(self.path.clone());
    }

    /// The colors this widget is drawn in: disabled, selected or normal.
    pub fn get_context_colors(&self) -> (r: (Color, Color))
        ensures
            r == context_colors(self.disabled.value, self.selected, self.colors),
    {
        get_context_colors(self.disabled.value, self.selected, &self.colors)
    }

    /// Enable or disable the widget.
    pub fn set_disabled(&mut self, disabled: bool)
        ensures
            *final(self) == (RadioButtonState { disabled: EzProperty { name: old(self).disabled.name,
                value: disabled }, ..*old(self) }),
    {
        self.disabled.set(disabled);
    }

    /// Whether the widget is disabled.
    pub fn get_disabled(&self) -> (r: bool)
        ensures
            r == self.disabled.value,
    {
        self.disabled.value
    }
}

impl SelectableState for RadioButtonState {
    open spec fn is_selected(&self) -> bool {
        self.selected
    }

    fn set_selected(&mut self, state: bool) {
        self.selected = state;
    }

    fn get_selected(&self) -> (r: bool) {
        self.selected
    }
}

impl SelectableWidgetState for RadioButtonState {
    open spec fn is_selected(&self) -> bool {
        self.selected
    }

    fn set_selected(&mut self, state: bool) {
        self.selected = state;
    }

    fn get_selected(&self) -> (r: bool) {
        self.selected
    }
}

impl RadioButtonState {
    /// Activate or deactivate the radio button.
    pub fn set_active(&mut self, active: bool)
        ensures
            *final(self) == (RadioButtonState { active: EzProperty { name: old(self).active.name,
                value: active }, ..*old(self) }),
    {
        self.active.set(active);
    }

    /// Whether the radio button is active.
    pub fn get_active(&self) -> (r: bool)
        ensures
            r == self.active.value,
    {
        self.active.value
    }

    /// The group of this radio button.
    pub fn get_group(&self) -> (r: String)
        ensures
            r == self.group,
    {
        self.group.clone()
    }

    /// Set the group of this radio button.
    pub fn set_group(&mut self, group: String)
        ensures
            *final(self) == (RadioButtonState { group, ..*old(self) }),
    {
        self.group = group;
    }
}

/// A radio button state with its activity set.
pub open spec fn with_active(s: RadioButtonState, active: bool) -> RadioButtonState {
    RadioButtonState { active: EzProperty { name: s.active.name, value: active }, ..s }
}

/// The radio buttons after pressing the one at `index`: every other button of its group
/// (by path) is inactive, the pressed one is active, buttons of other groups are unchanged.
pub open spec fn pressed(states: Seq<RadioButtonState>, index: int) -> Seq<RadioButtonState> {
    Seq::new(states.len(), |k: int|
        if k == index {
            with_active(states[k], true)
        } else if states[k].group@ == states[index].group@ && states[k].path@ != states[index].path@ {
            with_active(states[k], false)
        } else {
            states[k]
        })
}

/// Handle a press of the radio button at `index` among all radio button states: deactivate
/// the other buttons of its group and activate it. Returns whether it became active (then
/// the caller runs the value change callback, and a redraw is asked for).
pub fn handle_press(states: &mut Vec<RadioButtonState>, index: usize, scheduler: &mut SchedulerFrontend)
    -> (changed: bool)
    requires
        index < old(states)@.len(),
    ensures
        changed == !old(states)@[index as int].active.value,
        final(states)@ == pressed(old(states)@, index as int),
        changed ==> final(scheduler).widgets_to_update@ == old(scheduler).widgets_to_update@.push(
            old(states)@[index as int].path),
        changed ==> *final(scheduler) == (SchedulerFrontend { widgets_to_update:
            final(scheduler).widgets_to_update, ..*old(scheduler) }),
        !changed ==> *final(scheduler) == *old(scheduler),
{
    let group = states[index].get_group();
    let path = states[index].path.clone();
    let ghost orig = states@;
    let mut k: usize = 0;
    while k < states.len()
        invariant
            k <= states@.len(),
            states@.len() == orig.len(),
            index < orig.len(),
            group == orig[index as int].group,
            path == orig[index as int].path,
            forall|j: int| 0 <= j < k ==> #[trigger] states@[j] == (if j != index
                && orig[j].group@ == orig[index as int].group@ && orig[j].path@ != orig[index as int].path@ {
                with_active(orig[j], false) } else { orig[j] }),
            forall|j: int| k <= j < states@.len() ==> #[trigger] states@[j] == orig[j],
        decreases states@.len() - k,
    {
        let ghost old_states = states@;
        let same_group = states[k].group.eq(&group);
        let same_path = states[k].path.eq(&path);
        if same_group && !same_path {
            let mut s = states.remove(k);
            s.set_active(false);
            states.insert(k, s);
            assert(states@ =~= old_states.update(k as int, with_active(old_states[k as int], false)));
        }
        k = k + 1;
    }
    let active = states[index].get_active();
    if !active {
        let ghost old_states = states@;
        let mut s = states.remove(index);
        s.set_active(true);
        s.update(scheduler);
        states.insert(index, s);
        assert(states@ =~= old_states.update(index as int, with_active(old_states[index as int], true)));
        assert(states@ =~= pressed(orig, index as int));
        true
    } else {
        assert(states@ =~= pressed(orig, index as int));
        false
    }
}

/// After a press, the pressed radio button is the only active button of its group (among
/// buttons with other paths), and buttons of other groups are unchanged.
pub proof fn lemma_press_leaves_one_active(states: Seq<RadioButtonState>, index: int)
    requires
        0 <= index < states.len(),
    ensures
        ({
            let after = pressed(states, index);
            &&& after.len() == states.len()
            &&& after[index].active.value
            &&& forall|k: int| 0 <= k < states.len() && k != index
                && states[k].group@ == states[index].group@ && states[k].path@ != states[index].path@
                ==> !(#[trigger] after[k]).active.value
            &&& forall|k: int| 0 <= k < states.len() && states[k].group@ != states[index].group@
                ==> #[trigger] after[k] == states[k]
        }),
{
}

} // verus!
