//! Runtime state of a layout: its mode and orientation, the screen or tab it shows, its
//! filler, its scrolling, its table configuration and the modals open on it. A layout that
//! scrolls keeps a line for its scrollbar, which its content does not get.
use vstd::prelude::*;
use crate::pixel::{Color, IsizeCoordinates, Size};
use crate::scheduler::{EzProperty, SchedulerFrontend, join_name, clean_up_properties_named};
use crate::definitions::{StateCoordinates, StateSize, InfiniteSize, AutoScale, Padding, HorizontalAlignment,
    VerticalAlignment, BorderConfig, ColorConfig, TableConfig, LayoutMode, LayoutOrientation, registered_names,
    unregistered_names, new_coordinates, new_size, new_auto_scale, new_padding, new_border, new_colors,
    new_table_config};
use crate::geometry::{content_length, content_length_of, outer_length, outer_length_of, lemma_content_of_outer};
use crate::modals::{Modals, modal_id, modal_path};

verus! {

/// Whether a layout scrolls on each axis, whether it is scrolling now (its content does not
/// fit), and the size of its content before it was cut to the view. Where the view starts,
/// as a fraction of the content, is kept with the drawing code, which works in floating point.
pub struct ScrollingConfig {
    pub scroll_x: EzProperty<bool>,
    pub scroll_y: EzProperty<bool>,
    pub is_scrolling_x: bool,
    pub is_scrolling_y: bool,
    pub original_height: usize,
    pub original_width: usize,
}

impl ScrollingConfig {
    /// Scrolling properties named after `name`, not scrolling yet.
    pub fn new(scroll_x: bool, scroll_y: bool, name: String, scheduler: &mut SchedulerFrontend)
        -> (r: ScrollingConfig)
        ensures
            r.scroll_x.name@ == name@ + "/scroll_x"@,
            r.scroll_x.value == scroll_x,
            r.scroll_y.name@ == name@ + "/scroll_y"@,
            r.scroll_y.value == scroll_y,
            !r.is_scrolling_x,
            !r.is_scrolling_y,
            r.original_height == 0,
            r.original_width == 0,
            registered_names(*old(scheduler), *final(scheduler), seq![r.scroll_x.name, r.scroll_y.name]),
    {
        let ghost start = scheduler.properties@;
        let x = scheduler.new_property(join_name(&name, "/scroll_x"), scroll_x);
        let y = scheduler.new_property(join_name(&name, "/scroll_y"), scroll_y);
        let r = ScrollingConfig { scroll_x: x, scroll_y: y, is_scrolling_x: false, is_scrolling_y: false,
            original_height: 0, original_width: 0 };
        assert(scheduler.properties@ =~= start + seq![r.scroll_x.name, r.scroll_y.name]);
        r
    }

    /// Set whether the layout scrolls horizontally.
    pub fn set_scroll_x(&mut self, x: bool)
        ensures
            *final(self) == (ScrollingConfig { scroll_x: EzProperty { name: old(self).scroll_x.name, value: x },
                ..*old(self) }),
    {
        self.scroll_x.set(x);
    }

    /// Whether the layout scrolls horizontally.
    pub fn get_scroll_x(&self) -> (r: bool)
        ensures
            r == self.scroll_x.value,
    {
        self.scroll_x.value
    }

    /// Set whether the layout scrolls vertically.
    pub fn set_scroll_y(&mut self, y: bool)
        ensures
            *final(self) == (ScrollingConfig { scroll_y: EzProperty { name: old(self).scroll_y.name, value: y },
                ..*old(self) }),
    {
        self.scroll_y.set(y);
    }

    /// Whether the layout scrolls vertically.
    pub fn get_scroll_y(&self) -> (r: bool)
        ensures
            r == self.scroll_y.value,
    {
        self.scroll_y.value
    }

    /// Set the height of the content before it was cut to the view.
    pub fn set_original_height(&mut self, height: usize)
        ensures
            *final(self) == (ScrollingConfig { original_height: height, ..*old(self) }),
    {
        self.original_height = height;
    }

    /// The height of the content before it was cut to the view.
    pub fn get_original_height(&self) -> (r: usize)
        ensures
            r == self.original_height,
    {
        self.original_height
    }

    /// Set the width of the content before it was cut to the view.
    pub fn set_original_width(&mut self, width: usize)
        ensures
            *final(self) == (ScrollingConfig { original_width: width, ..*old(self) }),
    {
        self.original_width = width;
    }

    /// The width of the content before it was cut to the view.
    pub fn get_original_width(&self) -> (r: usize)
        ensures
            r == self.original_width,
    {
        self.original_width
    }

    /// Set whether the layout is scrolling horizontally now.
    pub fn set_is_scrolling_x(&mut self, x: bool)
        ensures
            *final(self) == (ScrollingConfig { is_scrolling_x: x, ..*old(self) }),
    {
        self.is_scrolling_x = x;
    }

    /// Whether the layout is scrolling horizontally now.
    pub fn get_is_scrolling_x(&self) -> (r: bool)
        ensures
            r == self.is_scrolling_x,
    {
        self.is_scrolling_x
    }

    /// Set whether the layout is scrolling vertically now.
    pub fn set_is_scrolling_y(&mut self, y: bool)
        ensures
            *final(self) == (ScrollingConfig { is_scrolling_y: y, ..*old(self) }),
    {
        self.is_scrolling_y = y;
    }

    /// Whether the layout is scrolling vertically now.
    pub fn get_is_scrolling_y(&self) -> (r: bool)
        ensures
            r == self.is_scrolling_y,
    {
        self.is_scrolling_y
    }

    /// The furthest column the view can start at: the content's width less the view's.
    pub fn get_max_view_start_x(&self, effective_widget_width: usize) -> (r: usize)
        requires
            effective_widget_width <= self.original_width,
        ensures
            r == self.original_width - effective_widget_width,
    {
        self.original_width - effective_widget_width
    }

    /// The furthest row the view can start at: the content's height less the view's.
    pub fn get_max_view_start_y(&self, effective_widget_height: usize) -> (r: usize)
        requires
            effective_widget_height <= self.original_height,
        ensures
            r == self.original_height - effective_widget_height,
    {
        self.original_height - effective_widget_height
    }

    /// Unregister both properties.
    pub fn clean_up_properties(&self, scheduler: &mut SchedulerFrontend)
        ensures
            unregistered_names(*old(scheduler), *final(scheduler), seq![self.scroll_x.name, self.scroll_y.name]),
    {
        let mut list: Vec<String> = Vec::new();
        list.push(self.scroll_x.name.clone());
        list.push(self.scroll_y.name.clone());
        assert(list@ =~= seq![self.scroll_x.name, self.scroll_y.name]);
        clean_up_properties_named(scheduler, &list);
    }
}

/// One position for a scrollbar when the layout scrolls on the other axis.
pub open spec fn scrollbar_space(scrolls: bool) -> nat {
    if scrolls { 1 } else { 0 }
}

/// The size left for content inside a layout: its border, its padding and, where it scrolls
/// on the other axis, the line of that axis's scrollbar taken off.
pub open spec fn layout_effective_size(size: StateSize, border: BorderConfig, padding: Padding,
    scrolling: ScrollingConfig) -> Size {
    Size {
        width: content_length(size.width.value as nat, border.border.value,
            (padding.padding_left.value + scrollbar_space(scrolling.scroll_y.value)) as nat,
            padding.padding_right.value as nat) as usize,
        height: content_length(size.height.value as nat, border.border.value,
            (padding.padding_top.value + scrollbar_space(scrolling.scroll_x.value)) as nat,
            padding.padding_bottom.value as nat) as usize,
    }
}

/// Runtime state of a layout; `T` is the type of the widgets that can open as modals.
pub struct LayoutState<T> {
    /// Path of the layout.
    pub path: String,
    /// Position relative to the parent layout.
    pub position: StateCoordinates,
    /// Absolute position on screen.
    pub absolute_position: IsizeCoordinates,
    /// Size of the layout.
    pub size: StateSize,
    /// Whether the layout may grow without bound on each axis.
    pub infinite_size: InfiniteSize,
    /// Whether the size follows the content.
    pub auto_scale: AutoScale,
    /// How children are laid out.
    pub mode: LayoutMode,
    /// In which direction children are laid out.
    pub orientation: LayoutOrientation,
    /// Space left around the layout.
    pub padding: Padding,
    /// Horizontal alignment.
    pub halign: HorizontalAlignment,
    /// Vertical alignment.
    pub valign: VerticalAlignment,
    /// Id of the child screen shown.
    pub active_screen: String,
    /// Name shown on the header of this layout when it is a tab.
    pub tab_name: String,
    /// The tab shown.
    pub active_tab: String,
    /// The tab header selected.
    pub selected_tab_header: String,
    /// Whether positions no child draws on are filled with the filler symbol.
    pub fill: bool,
    /// Symbol of the filler.
    pub filler_symbol: String,
    /// Border of the layout.
    pub border_config: BorderConfig,
    /// Colors of the layout.
    pub colors: ColorConfig,
    /// Scrolling of the layout.
    pub scrolling_config: ScrollingConfig,
    /// Rows and columns in table mode.
    pub table_config: TableConfig,
    /// The modals open on the layout; the first is shown.
    pub open_modals: Modals<T>,
    /// Whether the layout cannot be interacted with.
    pub disabled: bool,
    /// Order in which the layout is selected by keyboard.
    pub selection_order: usize,
    /// Whether the layout is selected.
    pub selected: bool,
    /// Whether the layout changed and must be redrawn.
    pub changed: bool,
    /// Whether the next frame redraws the whole screen.
    pub force_redraw: bool,
}

impl<T> LayoutState<T> {
    /// The state of a new layout at `path`: a horizontal box without modals, registering its
    /// properties under that path.
    pub fn new(path: String, scheduler: &mut SchedulerFrontend) -> (r: LayoutState<T>)
        ensures
            r.path == path,
            r.position.x.value == 0,
            r.position.y.value == 0,
            r.size.width.value == 0,
            r.size.height.value == 0,
            r.mode == LayoutMode::Box,
            r.orientation == LayoutOrientation::Horizontal,
            r.halign == HorizontalAlignment::Left,
            r.valign == VerticalAlignment::Top,
            r.active_screen@.len() == 0,
            r.tab_name@ == "Tab"@,
            r.active_tab@.len() == 0,
            r.selected_tab_header@.len() == 0,
            !r.fill,
            r.filler_symbol@.len() == 0,
            !r.border_config.border.value,
            !r.scrolling_config.scroll_x.value,
            !r.scrolling_config.scroll_y.value,
            r.open_modals.wf(),
            r.open_modals.open_modals@.len() == 0,
            !r.disabled,
            r.selection_order == 0,
            !r.selected,
            !r.changed,
            !r.force_redraw,
            new_coordinates(r.position, 0, 0, path@),
            r.absolute_position == (IsizeCoordinates { x: 0, y: 0 }),
            new_size(r.size, 0, 0, path@),
            r.infinite_size == (InfiniteSize { width: false, height: false }),
            new_auto_scale(r.auto_scale, false, false, path@),
            new_padding(r.padding, 0, 0, 0, 0, path@),
            new_border(r.border_config, false, path@),
            new_colors(r.colors, path@, Color::Black),
            r.scrolling_config.scroll_x.name@ == path@ + "/scroll_x"@,
            r.scrolling_config.scroll_y.name@ == path@ + "/scroll_y"@,
            !r.scrolling_config.is_scrolling_x,
            !r.scrolling_config.is_scrolling_y,
            r.scrolling_config.original_width == 0,
            r.scrolling_config.original_height == 0,
            new_table_config(r.table_config, path@),
            registered_names(*old(scheduler), *final(scheduler), seq![r.position.x.name, r.position.y.name,
                r.size.width.name, r.size.height.name, r.auto_scale.auto_scale_width.name,
                r.auto_scale.auto_scale_height.name, r.padding.padding_top.name, r.padding.padding_bottom.name,
                r.padding.padding_left.name, r.padding.padding_right.name]
                + seq![r.border_config.border.name, r.border_config.horizontal_symbol.name,
                r.border_config.vertical_symbol.name, r.border_config.top_left_symbol.name,
                r.border_config.top_right_symbol.name, r.border_config.bottom_left_symbol.name,
                r.border_config.bottom_right_symbol.name]
                + seq![r.colors.fg_color.name, r.colors.bg_color.name, r.colors.selection_fg_color.name,
                r.colors.selection_bg_color.name, r.colors.disabled_fg_color.name, r.colors.disabled_bg_color.name,
                r.colors.active_fg_color.name, r.colors.active_bg_color.name, r.colors.flash_fg_color.name,
                r.colors.flash_bg_color.name, r.colors.tab_fg_color.name, r.colors.tab_bg_color.name,
                r.colors.tab_border_fg_color.name, r.colors.tab_border_bg_color.name, r.colors.filler_fg_color.name,
                r.colors.filler_bg_color.name, r.colors.border_fg_color.name, r.colors.border_bg_color.name,
                r.colors.cursor_color.name]
                + seq![r.scrolling_config.scroll_x.name, r.scrolling_config.scroll_y.name]
                + seq![r.table_config.rows.name, r.table_config.cols.name, r.table_config.row_default_height.name,
                r.table_config.col_default_width.name, r.table_config.force_default_row_height.name,
                r.table_config.force_default_col_width.name]),
    {
        let ghost start = *scheduler;
        let position = StateCoordinates::new(0, 0, path.clone(), scheduler);
        let size = StateSize::new(0, 0, path.clone(), scheduler);
        let auto_scale = AutoScale::new(false, false, path.clone(), scheduler);
        let padding = Padding::new(0, 0, 0, 0, path.clone(), scheduler);
        let border_config = BorderConfig::new(false, path.clone(), scheduler);
        let colors = ColorConfig::new(path.clone(), scheduler);
        let scrolling_config = ScrollingConfig::new(false, false, path.clone(), scheduler);
        let table_config = TableConfig::new(path.clone(), scheduler);
        let tab_name = String::from_str("Tab");
        proof {
            reveal_strlit("Tab");
        }
        let r = LayoutState {
            path,
            position,
            absolute_position: IsizeCoordinates::new(0, 0),
            size,
            infinite_size: InfiniteSize { width: false, height: false },
            auto_scale,
            mode: LayoutMode::Box,
            orientation: LayoutOrientation::Horizontal,
            padding,
            halign: HorizontalAlignment::Left,
            valign: VerticalAlignment::Top,
            active_screen: String::new(),
            tab_name,
            active_tab: String::new(),
            selected_tab_header: String::new(),
            fill: false,
            filler_symbol: String::new(),
            border_config,
            colors,
            scrolling_config,
            table_config,
            open_modals: Modals::new(),
            disabled: false,
            selection_order: 0,
            selected: false,
            changed: false,
            force_redraw: false,
        };
        assert(scheduler.properties@ =~= start.properties@ + (seq![r.position.x.name, r.position.y.name,
                r.size.width.name, r.size.height.name, r.auto_scale.auto_scale_width.name,
                r.auto_scale.auto_scale_height.name, r.padding.padding_top.name, r.padding.padding_bottom.name,
                r.padding.padding_left.name, r.padding.padding_right.name]
                + seq![r.border_config.border.name, r.border_config.horizontal_symbol.name,
                r.border_config.vertical_symbol.name, r.border_config.top_left_symbol.name,
                r.border_config.top_right_symbol.name, r.border_config.bottom_left_symbol.name,
                r.border_config.bottom_right_symbol.name]
                + seq![r.colors.fg_color.name, r.colors.bg_color.name, r.colors.selection_fg_color.name,
                r.colors.selection_bg_color.name, r.colors.disabled_fg_color.name, r.colors.disabled_bg_color.name,
                r.colors.active_fg_color.name, r.colors.active_bg_color.name, r.colors.flash_fg_color.name,
                r.colors.flash_bg_color.name, r.colors.tab_fg_color.name, r.colors.tab_bg_color.name,
                r.colors.tab_border_fg_color.name, r.colors.tab_border_bg_color.name, r.colors.filler_fg_color.name,
                r.colors.filler_bg_color.name, r.colors.border_fg_color.name, r.colors.border_bg_color.name,
                r.colors.cursor_color.name]
                + seq![r.scrolling_config.scroll_x.name, r.scrolling_config.scroll_y.name]
                + seq![r.table_config.rows.name, r.table_config.cols.name, r.table_config.row_default_height.name,
                r.table_config.col_default_width.name, r.table_config.force_default_row_height.name,
                r.table_config.force_default_col_width.name]));
        r
    }

    /// The size left for content (see [`layout_effective_size`]).
    pub fn get_effective_size(&self) -> (r: Size)
        ensures
            r == layout_effective_size(self.size, self.border_config, self.padding, self.scrolling_config),
    {
        let scroll_left: usize = if self.scrolling_config.scroll_y.value { 1 } else { 0 };
        let scroll_top: usize = if self.scrolling_config.scroll_x.value { 1 } else { 0 };
        let left = if self.padding.padding_left.value > usize::MAX - scroll_left { usize::MAX }
            else { self.padding.padding_left.value + scroll_left };
        let top = if self.padding.padding_top.value > usize::MAX - scroll_top { usize::MAX }
            else { self.padding.padding_top.value + scroll_top };
        let width = if self.padding.padding_left.value > usize::MAX - scroll_left { 0 } else {
            content_length_of(self.size.width.value, self.border_config.border.value, left,
                self.padding.padding_right.value)
        };
        let height = if self.padding.padding_top.value > usize::MAX - scroll_top { 0 } else {
            content_length_of(self.size.height.value, self.border_config.border.value, top,
                self.padding.padding_bottom.value)
        };
        Size::new(width, height)
    }

    /// Set the width so that `width` columns are left for content inside the border, the
    /// padding and the line of a vertical scrollbar.
    pub fn set_effective_width(&mut self, width: usize)
        requires
            outer_length(width as nat, old(self).border_config.border.value,
                (old(self).padding.padding_left.value + scrollbar_space(old(self).scrolling_config.scroll_y.value)) as nat,
                old(self).padding.padding_right.value as nat) <= usize::MAX,
        ensures
            final(self).size.width.value as nat == outer_length(width as nat, old(self).border_config.border.value,
                (old(self).padding.padding_left.value + scrollbar_space(old(self).scrolling_config.scroll_y.value)) as nat,
                old(self).padding.padding_right.value as nat),
            *final(self) == (LayoutState { size: StateSize { width: EzProperty {
                name: old(self).size.width.name, value: final(self).size.width.value },
                ..old(self).size }, ..*old(self) }),
    {
        let scroll: usize = if self.scrolling_config.scroll_y.value { 1 } else { 0 };
        let w = outer_length_of(width, self.border_config.border.value, self.padding.padding_left.value + scroll,
            self.padding.padding_right.value);
        self.size.width.set(w);
    }

    /// Set the height so that `height` rows are left for content inside the border, the
    /// padding and the line of a horizontal scrollbar.
    pub fn set_effective_height(&mut self, height: usize)
        requires
            outer_length(height as nat, old(self).border_config.border.value,
                (old(self).padding.padding_top.value + scrollbar_space(old(self).scrolling_config.scroll_x.value)) as nat,
                old(self).padding.padding_bottom.value as nat) <= usize::MAX,
        ensures
            final(self).size.height.value as nat == outer_length(height as nat, old(self).border_config.border.value,
                (old(self).padding.padding_top.value + scrollbar_space(old(self).scrolling_config.scroll_x.value)) as nat,
                old(self).padding.padding_bottom.value as nat),
            *final(self) == (LayoutState { size: StateSize { height: EzProperty {
                name: old(self).size.height.name, value: final(self).size.height.value },
                ..old(self).size }, ..*old(self) }),
    {
        let scroll: usize = if self.scrolling_config.scroll_x.value { 1 } else { 0 };
        let h = outer_length_of(height, self.border_config.border.value, self.padding.padding_top.value + scroll,
            self.padding.padding_bottom.value);
        self.size.height.set(h);
    }

    /// Set the mode.
    pub fn set_mode(&mut self, mode: LayoutMode)
        ensures
            *final(self) == (LayoutState { mode, ..*old(self) }),
    {
        self.mode = mode;
    }

    /// The mode.
    pub fn get_mode(&self) -> (r: LayoutMode)
        ensures
            r == self.mode,
    {
        self.mode
    }

    /// Set the orientation.
    pub fn set_orientation(&mut self, orientation: LayoutOrientation)
        ensures
            *final(self) == (LayoutState { orientation, ..*old(self) }),
    {
        self.orientation = orientation;
    }

    /// The orientation.
    pub fn get_orientation(&self) -> (r: LayoutOrientation)
        ensures
            r == self.orientation,
    {
        self.orientation
    }

    /// Set the child screen shown; the layout has changed when it differs from the one shown.
    pub fn set_active_screen(&mut self, id: String)
        ensures
            *final(self) == (LayoutState { active_screen: id,
                changed: old(self).changed || old(self).active_screen@ != id@, ..*old(self) }),
    {
        if !(self.active_screen == id) {
            self.changed = true;
        }
        self.active_screen = id;
    }

    /// The child screen shown.
    pub fn get_active_screen(&self) -> (r: String)
        ensures
            r@ == self.active_screen@,
    {
        self.active_screen.clone()
    }

    /// Set the tab shown; the layout has changed when it differs from the one shown.
    pub fn set_active_tab(&mut self, path: String)
        ensures
            *final(self) == (LayoutState { active_tab: path,
                changed: old(self).changed || old(self).active_tab@ != path@, ..*old(self) }),
    {
        if !(self.active_tab == path) {
            self.changed = true;
        }
        self.active_tab = path;
    }

    /// The tab shown.
    pub fn get_active_tab(&self) -> (r: String)
        ensures
            r@ == self.active_tab@,
    {
        self.active_tab.clone()
    }

    /// Set the tab header selected; the layout has changed when it differs from the one
    /// selected.
    pub fn set_selected_tab_header(&mut self, path: String)
        ensures
            *final(self) == (LayoutState { selected_tab_header: path,
                changed: old(self).changed || old(self).selected_tab_header@ != path@, ..*old(self) }),
    {
        if !(self.selected_tab_header == path) {
            self.changed = true;
        }
        self.selected_tab_header = path;
    }

    /// The tab header selected.
    pub fn get_selected_tab_header(&self) -> (r: String)
        ensures
            r@ == self.selected_tab_header@,
    {
        self.selected_tab_header.clone()
    }

    /// Set the filler symbol; the layout has changed when it differs from the one it had.
    pub fn set_filler_symbol(&mut self, symbol: String)
        ensures
            *final(self) == (LayoutState { filler_symbol: symbol,
                changed: old(self).changed || old(self).filler_symbol@ != symbol@, ..*old(self) }),
    {
        if !(self.filler_symbol == symbol) {
            self.changed = true;
        }
        self.filler_symbol = symbol;
    }

    /// The filler symbol.
    pub fn get_filler_symbol(&self) -> (r: String)
        ensures
            r@ == self.filler_symbol@,
    {
        self.filler_symbol.clone()
    }

    /// Open a modal on the layout (see [`Modals::open_modal`]): it is given its id and full
    /// path. Returned are the path and the new states for the state tree, the modal's own
    /// state keyed by its path. The layout has changed.
    pub fn open_modal<S>(&mut self, id: String, modal: T, modal_state: S) -> (r: (String, Vec<(String, S)>))
        requires
            old(self).open_modals.wf(),
        ensures
            final(self).open_modals.wf(),
            final(self).open_modals.open_modals@ == old(self).open_modals.open_modals@.push(modal),
            final(self).open_modals.ids@.len() == old(self).open_modals.ids@.len() + 1,
            final(self).open_modals.ids@.take(old(self).open_modals.ids@.len() as int) == old(self).open_modals.ids@,
            final(self).open_modals.ids@.last()@ == modal_id(id@, old(self).open_modals.open_modals@.len()),
            final(self).open_modals.paths@ == old(self).open_modals.paths@.push(r.0),
            r.0@ == modal_path(modal_id(id@, old(self).open_modals.open_modals@.len())),
            r.1@.len() == 1,
            r.1@[0].0@ == r.0@,
            r.1@[0].1 == modal_state,
            *final(self) == (LayoutState { open_modals: final(self).open_modals, changed: true, ..*old(self) }),
    {
        let r = self.open_modals.open_modal(id, modal, modal_state);
        self.changed = true;
        r
    }

    /// Dismiss the modal shown, the first one opened. The layout has changed and the whole
    /// screen is redrawn.
    pub fn dismiss_modal(&mut self) -> (dismissed: T)
        requires
            old(self).open_modals.wf(),
            old(self).open_modals.open_modals@.len() > 0,
        ensures
            final(self).open_modals.wf(),
            dismissed == old(self).open_modals.open_modals@[0],
            final(self).open_modals.open_modals@ == old(self).open_modals.open_modals@.drop_first(),
            final(self).open_modals.ids@ == old(self).open_modals.ids@.drop_first(),
            final(self).open_modals.paths@ == old(self).open_modals.paths@.drop_first(),
            *final(self) == (LayoutState { open_modals: final(self).open_modals, changed: true, force_redraw: true,
                ..*old(self) }),
    {
        let dismissed = self.open_modals.dismiss_modal();
        self.changed = true;
        self.force_redraw = true;
        dismissed
    }

    /// Dismiss all modals. The layout has changed and the whole screen is redrawn.
    pub fn dismiss_all_modals(&mut self)
        ensures
            final(self).open_modals.wf(),
            final(self).open_modals.open_modals@.len() == 0,
            *final(self) == (LayoutState { open_modals: final(self).open_modals, changed: true, force_redraw: true,
                ..*old(self) }),
    {
        self.open_modals.dismiss_all_modals();
        self.changed = true;
        self.force_redraw = true;
    }

    /// Whether a modal is open.
    pub fn has_modal(&self) -> (r: bool)
        ensures
            r == (self.open_modals.open_modals@.len() > 0),
    {
        self.open_modals.has_modal()
    }

    /// The modals open, the one shown first.
    pub fn get_modals(&self) -> (r: &Vec<T>)
        ensures
            r@ == self.open_modals.open_modals@,
    {
        &self.open_modals.open_modals
    }
}

/// Setting a layout's effective width and height and then reading its effective size gives
/// them back, with its border, padding and scrolling unchanged.
pub proof fn lemma_layout_effective_size_round_trip<T>(s: LayoutState<T>, width: usize, height: usize)
    requires
        outer_length(width as nat, s.border_config.border.value,
            (s.padding.padding_left.value + scrollbar_space(s.scrolling_config.scroll_y.value)) as nat,
            s.padding.padding_right.value as nat) <= usize::MAX,
        outer_length(height as nat, s.border_config.border.value,
            (s.padding.padding_top.value + scrollbar_space(s.scrolling_config.scroll_x.value)) as nat,
            s.padding.padding_bottom.value as nat) <= usize::MAX,
    ensures
        ({
            let w = outer_length(width as nat, s.border_config.border.value,
                (s.padding.padding_left.value + scrollbar_space(s.scrolling_config.scroll_y.value)) as nat,
                s.padding.padding_right.value as nat) as usize;
            let h = outer_length(height as nat, s.border_config.border.value,
                (s.padding.padding_top.value + scrollbar_space(s.scrolling_config.scroll_x.value)) as nat,
                s.padding.padding_bottom.value as nat) as usize;
            let size = StateSize { width: EzProperty { name: s.size.width.name, value: w },
                height: EzProperty { name: s.size.height.name, value: h } };
            layout_effective_size(size, s.border_config, s.padding, s.scrolling_config)
                == Size { width, height }
        }),
{
    lemma_content_of_outer(width as nat, s.border_config.border.value,
        (s.padding.padding_left.value + scrollbar_space(s.scrolling_config.scroll_y.value)) as nat,
        s.padding.padding_right.value as nat);
    lemma_content_of_outer(height as nat, s.border_config.border.value,
        (s.padding.padding_top.value + scrollbar_space(s.scrolling_config.scroll_x.value)) as nat,
        s.padding.padding_bottom.value as nat);
}

} // verus!
