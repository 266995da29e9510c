//! Layout enums and the composite property objects (size, position, padding,
//! borders, colors, table configuration) that widget states are made of.
use vstd::prelude::*;
use crate::pixel::Color;
use crate::scheduler::{EzProperty, SchedulerFrontend, join_name, names, without_names,
    clean_up_properties_named};

verus! {

/// The mode determining how widgets are placed in a layout. Default is box.
#[derive(Clone, Copy, PartialEq, Eq, Structural, Debug)]
pub enum LayoutMode {
    /// Widgets are placed next to each other or under one another depending on orientation.
    Box,
    /// Widgets are stacked in the primary orientation until no more space is left, then along
    /// the secondary orientation.
    Stack,
    /// Widgets are placed evenly in a number of rows and columns.
    Table,
    /// Widgets are placed according to their position hint or hardcoded position.
    Float,
    /// Only the active child layout (screen) is shown.
    Screen,
    /// Child layouts are presented as tabs with a tab header each.
    Tab,
}

/// Orientation of box, stack and table layouts.
#[derive(Clone, Copy, PartialEq, Eq, Structural, Debug)]
pub enum LayoutOrientation {
    Horizontal,
    Vertical,
    LeftRightTopBottom,
    TopBottomLeftRight,
    RightLeftTopBottom,
    TopBottomRightLeft,
    LeftRightBottomTop,
    BottomTopLeftRight,
    RightLeftBottomTop,
    BottomTopRightLeft,
}

/// How content is placed horizontally in a layout; default is left.
#[derive(Clone, Copy, PartialEq, Eq, Structural, Debug)]
pub enum HorizontalAlignment {
    Left,
    Right,
    Center,
}

/// How content is placed vertically in a layout; default is top.
#[derive(Clone, Copy, PartialEq, Eq, Structural, Debug)]
pub enum VerticalAlignment {
    Top,
    Bottom,
    Middle,
}

/// The scheduler `new` differs from `old` only by the names `ns` registered, in order.
pub open spec fn registered_names(old: SchedulerFrontend, new: SchedulerFrontend, ns: Seq<String>) -> bool {
    &&& new.properties@ == old.properties@ + ns
    &&& new.widgets_to_update@ == old.widgets_to_update@
    &&& new.scheduled_tasks@ == old.scheduled_tasks@
    &&& new.force_redraw == old.force_redraw
}

/// The scheduler `new` differs from `old` only by the names `ns` unregistered, in order.
pub open spec fn unregistered_names(old: SchedulerFrontend, new: SchedulerFrontend, ns: Seq<String>) -> bool {
    &&& new.properties@ == without_names(old.properties@, names(ns))
    &&& new.widgets_to_update@ == old.widgets_to_update@
    &&& new.scheduled_tasks@ == old.scheduled_tasks@
    &&& new.force_redraw == old.force_redraw
}

/// Properties of a table mode layout: maximum rows and columns, default cell sizes and
/// whether the defaults are forced.
#[derive(PartialEq, Clone, Debug)]
pub struct TableConfig {
    /// Maximum amount of rows (0: grows with the content).
    pub rows: EzProperty<usize>,
    /// Maximum amount of columns (0: grows with the content).
    pub cols: EzProperty<usize>,
    /// Default height of rows; 0 means the parent height divided by the rows.
    pub row_default_height: EzProperty<usize>,
    /// Default width of columns; 0 means the parent width divided by the columns.
    pub col_default_width: EzProperty<usize>,
    /// Each row is exactly the default height.
    pub force_default_row_height: EzProperty<bool>,
    /// Each column is exactly the default width.
    pub force_default_col_width: EzProperty<bool>,
}

/// A table configuration as [`TableConfig::new`] builds it under `name`.
pub open spec fn new_table_config(t: TableConfig, name: Seq<char>) -> bool {
    &&& t.rows.name@ == name + "/rows"@
    &&& t.rows.value == 0
    &&& t.cols.name@ == name + "/cols"@
    &&& t.cols.value == 4
    &&& t.row_default_height.name@ == name + "/row_default_height"@
    &&& t.row_default_height.value == 0
    &&& t.col_default_width.name@ == name + "/col_default_width"@
    &&& t.col_default_width.value == 0
    &&& t.force_default_row_height.name@ == name + "/force_default_row_height"@
    &&& !t.force_default_row_height.value
    &&& t.force_default_col_width.name@ == name + "/force_default_col_width"@
    &&& !t.force_default_col_width.value
}

/// A size as [`StateSize::new`] builds it under `name`.
pub open spec fn new_size(s: StateSize, width: usize, height: usize, name: Seq<char>) -> bool {
    &&& s.width.name@ == name + "/width"@
    &&& s.width.value == width
    &&& s.height.name@ == name + "/height"@
    &&& s.height.value == height
}

/// A position as [`StateCoordinates::new`] builds it under `name`.
pub open spec fn new_coordinates(c: StateCoordinates, x: usize, y: usize, name: Seq<char>) -> bool {
    &&& c.x.name@ == name + "/x"@
    &&& c.x.value == x
    &&& c.y.name@ == name + "/y"@
    &&& c.y.value == y
}

/// Automatic scaling as [`AutoScale::new`] builds it under `name`.
pub open spec fn new_auto_scale(a: AutoScale, width: bool, height: bool, name: Seq<char>) -> bool {
    &&& a.auto_scale_width.name@ == name + "/auto_scale_width"@
    &&& a.auto_scale_width.value == width
    &&& a.auto_scale_height.name@ == name + "/auto_scale_height"@
    &&& a.auto_scale_height.value == height
}

/// Padding as [`Padding::new`] builds it under `name`.
pub open spec fn new_padding(p: Padding, top: usize, bottom: usize, left: usize, right: usize, name: Seq<char>) -> bool {
    &&& p.padding_top.name@ == name + "/padding_top"@
    &&& p.padding_top.value == top
    &&& p.padding_bottom.name@ == name + "/padding_bottom"@
    &&& p.padding_bottom.value == bottom
    &&& p.padding_left.name@ == name + "/padding_left"@
    &&& p.padding_left.value == left
    &&& p.padding_right.name@ == name + "/padding_right"@
    &&& p.padding_right.value == right
}

/// A border configuration as [`BorderConfig::new`] builds it under `name`: the border
/// enabled or not, drawn with light box-drawing lines.
pub open spec fn new_border(b: BorderConfig, enable: bool, name: Seq<char>) -> bool {
    &&& b.border.name@ == name + "/border"@
    &&& b.border.value == enable
    &&& b.horizontal_symbol.name@ == name + "/horizontal_symbol"@
    &&& b.horizontal_symbol.value@ == "─"@
    &&& b.vertical_symbol.name@ == name + "/vertical_symbol"@
    &&& b.vertical_symbol.value@ == "│"@
    &&& b.top_left_symbol.name@ == name + "/top_left_symbol"@
    &&& b.top_left_symbol.value@ == "┌"@
    &&& b.top_right_symbol.name@ == name + "/top_right_symbol"@
    &&& b.top_right_symbol.value@ == "┐"@
    &&& b.bottom_left_symbol.name@ == name + "/bottom_left_symbol"@
    &&& b.bottom_left_symbol.value@ == "└"@
    &&& b.bottom_right_symbol.name@ == name + "/bottom_right_symbol"@
    &&& b.bottom_right_symbol.value@ == "┘"@
}

/// Colors as [`ColorConfig::new`] builds them under `name`, with the given background color
/// (black as built; a widget may start with another).
pub open spec fn new_colors(c: ColorConfig, name: Seq<char>, bg: Color) -> bool {
    &&& c.fg_color.name@ == name + "/fg_color"@
    &&& c.fg_color.value == Color::White
    &&& c.bg_color.name@ == name + "/bg_color"@
    &&& c.bg_color.value == bg
    &&& c.selection_fg_color.name@ == name + "/selection_fg_color"@
    &&& c.selection_fg_color.value == Color::Yellow
    &&& c.selection_bg_color.name@ == name + "/selection_bg_color"@
    &&& c.selection_bg_color.value == Color::Blue
    &&& c.disabled_fg_color.name@ == name + "/disabled_fg_color"@
    &&& c.disabled_fg_color.value == Color::White
    &&& c.disabled_bg_color.name@ == name + "/disabled_bg_color"@
    &&& c.disabled_bg_color.value == Color::Black
    &&& c.active_fg_color.name@ == name + "/active_fg_color"@
    &&& c.active_fg_color.value == Color::White
    &&& c.active_bg_color.name@ == name + "/active_bg_color"@
    &&& c.active_bg_color.value == Color::Black
    &&& c.flash_fg_color.name@ == name + "/flash_fg_color"@
    &&& c.flash_fg_color.value == Color::White
    &&& c.flash_bg_color.name@ == name + "/flash_bg_color"@
    &&& c.flash_bg_color.value == Color::White
    &&& c.tab_fg_color.name@ == name + "/tab_fg_color"@
    &&& c.tab_fg_color.value == Color::White
    &&& c.tab_bg_color.name@ == name + "/tab_bg_color"@
    &&& c.tab_bg_color.value == Color::Black
    &&& c.tab_border_fg_color.name@ == name + "/tab_border_fg_color"@
    &&& c.tab_border_fg_color.value == Color::White
    &&& c.tab_border_bg_color.name@ == name + "/tab_border_bg_color"@
    &&& c.tab_border_bg_color.value == Color::Black
    &&& c.filler_fg_color.name@ == name + "/filler_fg_color"@
    &&& c.filler_fg_color.value == Color::White
    &&& c.filler_bg_color.name@ == name + "/filler_bg_color"@
    &&& c.filler_bg_color.value == Color::Black
    &&& c.border_fg_color.name@ == name + "/border_fg_color"@
    &&& c.border_fg_color.value == Color::White
    &&& c.border_bg_color.name@ == name + "/border_bg_color"@
    &&& c.border_bg_color.value == Color::Black
    &&& c.cursor_color.name@ == name + "/cursor_color"@
    &&& c.cursor_color.value == Color::DarkYellow
}

/// A border configuration after one of its symbols was set: the border flag and the names of
/// all its properties stay.
pub open spec fn symbol_step(a: BorderConfig, b: BorderConfig) -> bool {
    &&& b.border == a.border
    &&& b.horizontal_symbol.name == a.horizontal_symbol.name
    &&& b.vertical_symbol.name == a.vertical_symbol.name
    &&& b.top_left_symbol.name == a.top_left_symbol.name
    &&& b.top_right_symbol.name == a.top_right_symbol.name
    &&& b.bottom_left_symbol.name == a.bottom_left_symbol.name
    &&& b.bottom_right_symbol.name == a.bottom_right_symbol.name
}

/// Setting border symbols, any number of times and in any order, never changes whether the
/// border is drawn: along a run of configurations each made from the one before by setting a
/// symbol, the border flag is the one the run started with.
pub proof fn lemma_symbols_keep_border(run: Seq<BorderConfig>)
    requires
        run.len() > 0,
        forall|i: int| 0 <= i < run.len() - 1 ==> symbol_step(#[trigger] run[i], run[i + 1]),
    ensures
        run.last().border == run[0].border,
    decreases run.len(),
{
    if run.len() > 1 {
        let front = run.drop_last();
        assert forall|i: int| 0 <= i < front.len() - 1 implies symbol_step(#[trigger] front[i], front[i + 1]) by {
            assert(front[i] == run[i]);
            assert(front[i + 1] == run[i + 1]);
        }
        lemma_symbols_keep_border(front);
        assert(symbol_step(run[run.len() - 2], run[run.len() - 1]));
    }
}

impl TableConfig {
    /// Table properties named after `name`: no row limit, four columns, no defaults.
    pub fn new(name: String, scheduler: &mut SchedulerFrontend) -> (r: TableConfig)
        ensures
            r.rows.name@ == name@ + "/rows"@,
            r.rows.value == 0,
            r.cols.name@ == name@ + "/cols"@,
            r.cols.value == 4,
            r.row_default_height.name@ == name@ + "/row_default_height"@,
            r.row_default_height.value == 0,
            r.col_default_width.name@ == name@ + "/col_default_width"@,
            r.col_default_width.value == 0,
            r.force_default_row_height.name@ == name@ + "/force_default_row_height"@,
            r.force_default_row_height.value == false,
            r.force_default_col_width.name@ == name@ + "/force_default_col_width"@,
            r.force_default_col_width.value == false,
            new_table_config(r, name@),
            registered_names(*old(scheduler), *final(scheduler), seq![r.rows.name, r.cols.name, r.row_default_height.name, r.col_default_width.name, r.force_default_row_height.name, r.force_default_col_width.name]),
    {
        let ghost start = scheduler.properties@;
        let rows = scheduler.new_property(join_name(&name, "/rows"), 0);
        let cols = scheduler.new_property(join_name(&name, "/cols"), 4);
        let row_default_height = scheduler.new_property(join_name(&name, "/row_default_height"), 0);
        let col_default_width = scheduler.new_property(join_name(&name, "/col_default_width"), 0);
        let force_default_row_height = scheduler.new_property(join_name(&name, "/force_default_row_height"), false);
        let force_default_col_width = scheduler.new_property(join_name(&name, "/force_default_col_width"), false);
        let r = TableConfig { rows, cols, row_default_height, col_default_width, force_default_row_height, force_default_col_width };
        assert(scheduler.properties@ =~= start + seq![r.rows.name, r.cols.name, r.row_default_height.name, r.col_default_width.name, r.force_default_row_height.name, r.force_default_col_width.name]);
        r
    }

    /// Set the rows.
    pub fn set_rows(&mut self, rows: usize)
        ensures
            *final(self) == (TableConfig { rows: EzProperty { name: old(self).rows.name, value: rows }, ..*old(self) }),
    {
        self.rows.set(rows);
    }

    /// Get the rows.
    pub fn get_rows(&self) -> (r: usize)
        ensures
            r == self.rows.value,
    {
        self.rows.value
    }

    /// Set the cols.
    pub fn set_cols(&mut self, columns: usize)
        ensures
            *final(self) == (TableConfig { cols: EzProperty { name: old(self).cols.name, value: columns }, ..*old(self) }),
    {
        self.cols.set(columns);
    }

    /// Get the cols.
    pub fn get_cols(&self) -> (r: usize)
        ensures
            r == self.cols.value,
    {
        self.cols.value
    }

    /// Set the row default height.
    pub fn set_row_default_height(&mut self, default: usize)
        ensures
            *final(self) == (TableConfig { row_default_height: EzProperty { name: old(self).row_default_height.name, value: default }, ..*old(self) }),
    {
        self.row_default_height.set(default);
    }

    /// Get the row default height.
    pub fn get_row_default_height(&self) -> (r: usize)
        ensures
            r == self.row_default_height.value,
    {
        self.row_default_height.value
    }

    /// Set the col default width.
    pub fn set_col_default_width(&mut self, default: usize)
        ensures
            *final(self) == (TableConfig { col_default_width: EzProperty { name: old(self).col_default_width.name, value: default }, ..*old(self) }),
    {
        self.col_default_width.set(default);
    }

    /// Get the col default width.
    pub fn get_col_default_width(&self) -> (r: usize)
        ensures
            r == self.col_default_width.value,
    {
        self.col_default_width.value
    }

    /// Set the force default row height.
    pub fn set_force_default_row_height(&mut self, force: bool)
        ensures
            *final(self) == (TableConfig { force_default_row_height: EzProperty { name: old(self).force_default_row_height.name, value: force }, ..*old(self) }),
    {
        self.force_default_row_height.set(force);
    }

    /// Get the force default row height.
    pub fn get_force_default_row_height(&self) -> (r: bool)
        ensures
            r == self.force_default_row_height.value,
    {
        self.force_default_row_height.value
    }

    /// Set the force default col width.
    pub fn set_force_default_col_width(&mut self, force: bool)
        ensures
            *final(self) == (TableConfig { force_default_col_width: EzProperty { name: old(self).force_default_col_width.name, value: force }, ..*old(self) }),
    {
        self.force_default_col_width.set(force);
    }

    /// Get the force default col width.
    pub fn get_force_default_col_width(&self) -> (r: bool)
        ensures
            r == self.force_default_col_width.value,
    {
        self.force_default_col_width.value
    }

    /// Unregister the rows, columns and forcing properties.
    pub fn clean_up_properties(&self, scheduler: &mut SchedulerFrontend)
        ensures
            unregistered_names(*old(scheduler), *final(scheduler), seq![self.rows.name, self.cols.name, self.force_default_row_height.name, self.force_default_col_width.name]),
    {
        let mut list: Vec<String> = Vec::new();
        list.push(self.rows.name.clone());
        list.push(self.cols.name.clone());
        list.push(self.force_default_row_height.name.clone());
        list.push(self.force_default_col_width.name.clone());
        assert(list@ =~= seq![self.rows.name, self.cols.name, self.force_default_row_height.name, self.force_default_col_width.name]);
        clean_up_properties_named(scheduler, &list);
    }
}

/// Width and height of a widget.
#[derive(PartialEq, Clone, Debug)]
pub struct StateSize {
    /// Width in columns.
    pub width: EzProperty<usize>,
    /// Height in rows.
    pub height: EzProperty<usize>,
}

impl StateSize {
    /// Size properties named after `name`.
    pub fn new(width: usize, height: usize, name: String, scheduler: &mut SchedulerFrontend) -> (r: StateSize)
        ensures
            r.width.name@ == name@ + "/width"@,
            r.width.value == width,
            r.height.name@ == name@ + "/height"@,
            r.height.value == height,
            new_size(r, width, height, name@),
            registered_names(*old(scheduler), *final(scheduler), seq![r.width.name, r.height.name]),
    {
        let ghost start = scheduler.properties@;
        let width = scheduler.new_property(join_name(&name, "/width"), width);
        let height = scheduler.new_property(join_name(&name, "/height"), height);
        let r = StateSize { width, height };
        assert(scheduler.properties@ =~= start + seq![r.width.name, r.height.name]);
        r
    }

    /// Set the width.
    pub fn set_width(&mut self, width: usize)
        ensures
            *final(self) == (StateSize { width: EzProperty { name: old(self).width.name, value: width }, ..*old(self) }),
    {
        self.width.set(width);
    }

    /// Get the width.
    pub fn get_width(&self) -> (r: usize)
        ensures
            r == self.width.value,
    {
        self.width.value
    }

    /// Set the height.
    pub fn set_height(&mut self, height: usize)
        ensures
            *final(self) == (StateSize { height: EzProperty { name: old(self).height.name, value: height }, ..*old(self) }),
    {
        self.height.set(height);
    }

    /// Get the height.
    pub fn get_height(&self) -> (r: usize)
        ensures
            r == self.height.value,
    {
        self.height.value
    }

    /// Unregister both properties.
    pub fn clean_up_properties(&self, scheduler: &mut SchedulerFrontend)
        ensures
            unregistered_names(*old(scheduler), *final(scheduler), seq![self.width.name, self.height.name]),
    {
        let mut list: Vec<String> = Vec::new();
        list.push(self.width.name.clone());
        list.push(self.height.name.clone());
        assert(list@ =~= seq![self.width.name, self.height.name]);
        clean_up_properties_named(scheduler, &list);
    }
}

/// An X and a Y coordinate.
#[derive(PartialEq, Clone, Debug)]
pub struct StateCoordinates {
    /// X coordinate.
    pub x: EzProperty<usize>,
    /// Y coordinate.
    pub y: EzProperty<usize>,
}

impl StateCoordinates {
    /// Coordinate properties named after `name`.
    pub fn new(x: usize, y: usize, name: String, scheduler: &mut SchedulerFrontend) -> (r: StateCoordinates)
        ensures
            r.x.name@ == name@ + "/x"@,
            r.x.value == x,
            r.y.name@ == name@ + "/y"@,
            r.y.value == y,
            new_coordinates(r, x, y, name@),
            registered_names(*old(scheduler), *final(scheduler), seq![r.x.name, r.y.name]),
    {
        let ghost start = scheduler.properties@;
        let x = scheduler.new_property(join_name(&name, "/x"), x);
        let y = scheduler.new_property(join_name(&name, "/y"), y);
        let r = StateCoordinates { x, y };
        assert(scheduler.properties@ =~= start + seq![r.x.name, r.y.name]);
        r
    }

    /// Set the x.
    pub fn set_x(&mut self, x: usize)
        ensures
            *final(self) == (StateCoordinates { x: EzProperty { name: old(self).x.name, value: x }, ..*old(self) }),
    {
        self.x.set(x);
    }

    /// Get the x.
    pub fn get_x(&self) -> (r: usize)
        ensures
            r == self.x.value,
    {
        self.x.value
    }

    /// Set the y.
    pub fn set_y(&mut self, y: usize)
        ensures
            *final(self) == (StateCoordinates { y: EzProperty { name: old(self).y.name, value: y }, ..*old(self) }),
    {
        self.y.set(y);
    }

    /// Get the y.
    pub fn get_y(&self) -> (r: usize)
        ensures
            r == self.y.value,
    {
        self.y.value
    }

    /// Unregister both properties.
    pub fn clean_up_properties(&self, scheduler: &mut SchedulerFrontend)
        ensures
            unregistered_names(*old(scheduler), *final(scheduler), seq![self.x.name, self.y.name]),
    {
        let mut list: Vec<String> = Vec::new();
        list.push(self.x.name.clone());
        list.push(self.y.name.clone());
        assert(list@ =~= seq![self.x.name, self.y.name]);
        clean_up_properties_named(scheduler, &list);
    }
}

/// Whether width and height scale automatically to the content.
#[derive(PartialEq, Clone, Debug)]
pub struct AutoScale {
    /// Scale width to the content.
    pub auto_scale_width: EzProperty<bool>,
    /// Scale height to the content.
    pub auto_scale_height: EzProperty<bool>,
}

impl AutoScale {
    /// Auto scaling properties named after `name`.
    pub fn new(width: bool, height: bool, name: String, scheduler: &mut SchedulerFrontend) -> (r: AutoScale)
        ensures
            r.auto_scale_width.name@ == name@ + "/auto_scale_width"@,
            r.auto_scale_width.value == width,
            r.auto_scale_height.name@ == name@ + "/auto_scale_height"@,
            r.auto_scale_height.value == height,
            new_auto_scale(r, width, height, name@),
            registered_names(*old(scheduler), *final(scheduler), seq![r.auto_scale_width.name, r.auto_scale_height.name]),
    {
        let ghost start = scheduler.properties@;
        let auto_scale_width = scheduler.new_property(join_name(&name, "/auto_scale_width"), width);
        let auto_scale_height = scheduler.new_property(join_name(&name, "/auto_scale_height"), height);
        let r = AutoScale { auto_scale_width, auto_scale_height };
        assert(scheduler.properties@ =~= start + seq![r.auto_scale_width.name, r.auto_scale_height.name]);
        r
    }

    /// Set the auto scale width.
    pub fn set_auto_scale_width(&mut self, width: bool)
        ensures
            *final(self) == (AutoScale { auto_scale_width: EzProperty { name: old(self).auto_scale_width.name, value: width }, ..*old(self) }),
    {
        self.auto_scale_width.set(width);
    }

    /// Get the auto scale width.
    pub fn get_auto_scale_width(&self) -> (r: bool)
        ensures
            r == self.auto_scale_width.value,
    {
        self.auto_scale_width.value
    }

    /// Set the auto scale height.
    pub fn set_auto_scale_height(&mut self, height: bool)
        ensures
            *final(self) == (AutoScale { auto_scale_height: EzProperty { name: old(self).auto_scale_height.name, value: height }, ..*old(self) }),
    {
        self.auto_scale_height.set(height);
    }

    /// Get the auto scale height.
    pub fn get_auto_scale_height(&self) -> (r: bool)
        ensures
            r == self.auto_scale_height.value,
    {
        self.auto_scale_height.value
    }

    /// Unregister both properties.
    pub fn clean_up_properties(&self, scheduler: &mut SchedulerFrontend)
        ensures
            unregistered_names(*old(scheduler), *final(scheduler), seq![self.auto_scale_width.name, self.auto_scale_height.name]),
    {
        let mut list: Vec<String> = Vec::new();
        list.push(self.auto_scale_width.name.clone());
        list.push(self.auto_scale_height.name.clone());
        assert(list@ =~= seq![self.auto_scale_width.name, self.auto_scale_height.name]);
        clean_up_properties_named(scheduler, &list);
    }
}

/// Amount of space to leave on each side of a widget.
#[derive(PartialEq, Clone, Debug)]
pub struct Padding {
    /// Rows of padding above.
    pub padding_top: EzProperty<usize>,
    /// Rows of padding below.
    pub padding_bottom: EzProperty<usize>,
    /// Columns of padding on the left.
    pub padding_left: EzProperty<usize>,
    /// Columns of padding on the right.
    pub padding_right: EzProperty<usize>,
}

impl Padding {
    /// Padding properties named after `name`.
    pub fn new(top: usize, bottom: usize, left: usize, right: usize, name: String, scheduler: &mut SchedulerFrontend) -> (r: Padding)
        ensures
            r.padding_top.name@ == name@ + "/padding_top"@,
            r.padding_top.value == top,
            r.padding_bottom.name@ == name@ + "/padding_bottom"@,
            r.padding_bottom.value == bottom,
            r.padding_left.name@ == name@ + "/padding_left"@,
            r.padding_left.value == left,
            r.padding_right.name@ == name@ + "/padding_right"@,
            r.padding_right.value == right,
            new_padding(r, top, bottom, left, right, name@),
            registered_names(*old(scheduler), *final(scheduler), seq![r.padding_top.name, r.padding_bottom.name, r.padding_left.name, r.padding_right.name]),
    {
        let ghost start = scheduler.properties@;
        let padding_top = scheduler.new_property(join_name(&name, "/padding_top"), top);
        let padding_bottom = scheduler.new_property(join_name(&name, "/padding_bottom"), bottom);
        let padding_left = scheduler.new_property(join_name(&name, "/padding_left"), left);
        let padding_right = scheduler.new_property(join_name(&name, "/padding_right"), right);
        let r = Padding { padding_top, padding_bottom, padding_left, padding_right };
        assert(scheduler.properties@ =~= start + seq![r.padding_top.name, r.padding_bottom.name, r.padding_left.name, r.padding_right.name]);
        r
    }

    /// Set the padding top.
    pub fn set_padding_top(&mut self, padding: usize)
        ensures
            *final(self) == (Padding { padding_top: EzProperty { name: old(self).padding_top.name, value: padding }, ..*old(self) }),
    {
        self.padding_top.set(padding);
    }

    /// Get the padding top.
    pub fn get_padding_top(&self) -> (r: usize)
        ensures
            r == self.padding_top.value,
    {
        self.padding_top.value
    }

    /// Set the padding bottom.
    pub fn set_padding_bottom(&mut self, padding: usize)
        ensures
            *final(self) == (Padding { padding_bottom: EzProperty { name: old(self).padding_bottom.name, value: padding }, ..*old(self) }),
    {
        self.padding_bottom.set(padding);
    }

    /// Get the padding bottom.
    pub fn get_padding_bottom(&self) -> (r: usize)
        ensures
            r == self.padding_bottom.value,
    {
        self.padding_bottom.value
    }

    /// Set the padding left.
    pub fn set_padding_left(&mut self, padding: usize)
        ensures
            *final(self) == (Padding { padding_left: EzProperty { name: old(self).padding_left.name, value: padding }, ..*old(self) }),
    {
        self.padding_left.set(padding);
    }

    /// Get the padding left.
    pub fn get_padding_left(&self) -> (r: usize)
        ensures
            r == self.padding_left.value,
    {
        self.padding_left.value
    }

    /// Set the padding right.
    pub fn set_padding_right(&mut self, padding: usize)
        ensures
            *final(self) == (Padding { padding_right: EzProperty { name: old(self).padding_right.name, value: padding }, ..*old(self) }),
    {
        self.padding_right.set(padding);
    }

    /// Get the padding right.
    pub fn get_padding_right(&self) -> (r: usize)
        ensures
            r == self.padding_right.value,
    {
        self.padding_right.value
    }

    /// Unregister all four properties.
    pub fn clean_up_properties(&self, scheduler: &mut SchedulerFrontend)
        ensures
            unregistered_names(*old(scheduler), *final(scheduler), seq![self.padding_top.name, self.padding_bottom.name, self.padding_left.name, self.padding_right.name]),
    {
        let mut list: Vec<String> = Vec::new();
        list.push(self.padding_top.name.clone());
        list.push(self.padding_bottom.name.clone());
        list.push(self.padding_left.name.clone());
        list.push(self.padding_right.name.clone());
        assert(list@ =~= seq![self.padding_top.name, self.padding_bottom.name, self.padding_left.name, self.padding_right.name]);
        clean_up_properties_named(scheduler, &list);
    }
}

/// Whether an object has a border, and the symbols the border is drawn with.
#[derive(PartialEq, Clone, Debug)]
pub struct BorderConfig {
    /// Whether the object has a border.
    pub border: EzProperty<bool>,
    /// Symbol of the horizontal border.
    pub horizontal_symbol: EzProperty<String>,
    /// Symbol of the vertical border.
    pub vertical_symbol: EzProperty<String>,
    /// Symbol of the top left corner.
    pub top_left_symbol: EzProperty<String>,
    /// Symbol of the top right corner.
    pub top_right_symbol: EzProperty<String>,
    /// Symbol of the bottom left corner.
    pub bottom_left_symbol: EzProperty<String>,
    /// Symbol of the bottom right corner.
    pub bottom_right_symbol: EzProperty<String>,
}

impl BorderConfig {
    /// Border properties named after `name`, with box drawing symbols.
    pub fn new(enable: bool, name: String, scheduler: &mut SchedulerFrontend) -> (r: BorderConfig)
        ensures
            r.border.name@ == name@ + "/border"@,
            r.border.value == enable,
            r.horizontal_symbol.name@ == name@ + "/horizontal_symbol"@,
            r.horizontal_symbol.value@ == "─"@,
            r.vertical_symbol.name@ == name@ + "/vertical_symbol"@,
            r.vertical_symbol.value@ == "│"@,
            r.top_left_symbol.name@ == name@ + "/top_left_symbol"@,
            r.top_left_symbol.value@ == "┌"@,
            r.top_right_symbol.name@ == name@ + "/top_right_symbol"@,
            r.top_right_symbol.value@ == "┐"@,
            r.bottom_left_symbol.name@ == name@ + "/bottom_left_symbol"@,
            r.bottom_left_symbol.value@ == "└"@,
            r.bottom_right_symbol.name@ == name@ + "/bottom_right_symbol"@,
            r.bottom_right_symbol.value@ == "┘"@,
            new_border(r, enable, name@),
            registered_names(*old(scheduler), *final(scheduler), seq![r.border.name, r.horizontal_symbol.name, r.vertical_symbol.name, r.top_left_symbol.name, r.top_right_symbol.name, r.bottom_left_symbol.name, r.bottom_right_symbol.name]),
    {
        let ghost start = scheduler.properties@;
        let border = scheduler.new_property(join_name(&name, "/border"), enable);
        let horizontal_symbol = scheduler.new_property(join_name(&name, "/horizontal_symbol"), String::from_str("─"));
        let vertical_symbol = scheduler.new_property(join_name(&name, "/vertical_symbol"), String::from_str("│"));
        let top_left_symbol = scheduler.new_property(join_name(&name, "/top_left_symbol"), String::from_str("┌"));
        let top_right_symbol = scheduler.new_property(join_name(&name, "/top_right_symbol"), String::from_str("┐"));
        let bottom_left_symbol = scheduler.new_property(join_name(&name, "/bottom_left_symbol"), String::from_str("└"));
        let bottom_right_symbol = scheduler.new_property(join_name(&name, "/bottom_right_symbol"), String::from_str("┘"));
        let r = BorderConfig { border, horizontal_symbol, vertical_symbol, top_left_symbol, top_right_symbol, bottom_left_symbol, bottom_right_symbol };
        assert(scheduler.properties@ =~= start + seq![r.border.name, r.horizontal_symbol.name, r.vertical_symbol.name, r.top_left_symbol.name, r.top_right_symbol.name, r.bottom_left_symbol.name, r.bottom_right_symbol.name]);
        r
    }

    /// Set the border.
    pub fn set_border(&mut self, enabled: bool)
        ensures
            *final(self) == (BorderConfig { border: EzProperty { name: old(self).border.name, value: enabled }, ..*old(self) }),
    {
        self.border.set(enabled);
    }

    /// Get the border.
    pub fn get_border(&self) -> (r: bool)
        ensures
            r == self.border.value,
    {
        self.border.value
    }

    /// Set the horizontal symbol.
    pub fn set_horizontal_symbol(&mut self, symbol: &str)
        ensures
            symbol_step(*old(self), *final(self)),
            final(self).horizontal_symbol.name == old(self).horizontal_symbol.name,
            final(self).horizontal_symbol.value@ == symbol@,
            final(self).border == old(self).border,
            final(self).vertical_symbol == old(self).vertical_symbol,
            final(self).top_left_symbol == old(self).top_left_symbol,
            final(self).top_right_symbol == old(self).top_right_symbol,
            final(self).bottom_left_symbol == old(self).bottom_left_symbol,
            final(self).bottom_right_symbol == old(self).bottom_right_symbol,
    {
        self.horizontal_symbol.set(String::from_str(symbol));
    }

    /// Get the horizontal symbol.
    pub fn get_horizontal_symbol(&self) -> (r: String)
        ensures
            r == self.horizontal_symbol.value,
    {
        self.horizontal_symbol.value.clone()
    }

    /// Set the vertical symbol.
    pub fn set_vertical_symbol(&mut self, symbol: &str)
        ensures
            symbol_step(*old(self), *final(self)),
            final(self).vertical_symbol.name == old(self).vertical_symbol.name,
            final(self).vertical_symbol.value@ == symbol@,
            final(self).border == old(self).border,
            final(self).horizontal_symbol == old(self).horizontal_symbol,
            final(self).top_left_symbol == old(self).top_left_symbol,
            final(self).top_right_symbol == old(self).top_right_symbol,
            final(self).bottom_left_symbol == old(self).bottom_left_symbol,
            final(self).bottom_right_symbol == old(self).bottom_right_symbol,
    {
        self.vertical_symbol.set(String::from_str(symbol));
    }

    /// Get the vertical symbol.
    pub fn get_vertical_symbol(&self) -> (r: String)
        ensures
            r == self.vertical_symbol.value,
    {
        self.vertical_symbol.value.clone()
    }

    /// Set the top left symbol.
    pub fn set_top_left_symbol(&mut self, symbol: &str)
        ensures
            symbol_step(*old(self), *final(self)),
            final(self).top_left_symbol.name == old(self).top_left_symbol.name,
            final(self).top_left_symbol.value@ == symbol@,
            final(self).border == old(self).border,
            final(self).horizontal_symbol == old(self).horizontal_symbol,
            final(self).vertical_symbol == old(self).vertical_symbol,
            final(self).top_right_symbol == old(self).top_right_symbol,
            final(self).bottom_left_symbol == old(self).bottom_left_symbol,
            final(self).bottom_right_symbol == old(self).bottom_right_symbol,
    {
        self.top_left_symbol.set(String::from_str(symbol));
    }

    /// Get the top left symbol.
    pub fn get_top_left_symbol(&self) -> (r: String)
        ensures
            r == self.top_left_symbol.value,
    {
        self.top_left_symbol.value.clone()
    }

    /// Set the top right symbol.
    pub fn set_top_right_symbol(&mut self, symbol: &str)
        ensures
            symbol_step(*old(self), *final(self)),
            final(self).top_right_symbol.name == old(self).top_right_symbol.name,
            final(self).top_right_symbol.value@ == symbol@,
            final(self).border == old(self).border,
            final(self).horizontal_symbol == old(self).horizontal_symbol,
            final(self).vertical_symbol == old(self).vertical_symbol,
            final(self).top_left_symbol == old(self).top_left_symbol,
            final(self).bottom_left_symbol == old(self).bottom_left_symbol,
            final(self).bottom_right_symbol == old(self).bottom_right_symbol,
    {
        self.top_right_symbol.set(String::from_str(symbol));
    }

    /// Get the top right symbol.
    pub fn get_top_right_symbol(&self) -> (r: String)
        ensures
            r == self.top_right_symbol.value,
    {
        self.top_right_symbol.value.clone()
    }

    /// Set the bottom left symbol.
    pub fn set_bottom_left_symbol(&mut self, symbol: &str)
        ensures
            symbol_step(*old(self), *final(self)),
            final(self).bottom_left_symbol.name == old(self).bottom_left_symbol.name,
            final(self).bottom_left_symbol.value@ == symbol@,
            final(self).border == old(self).border,
            final(self).horizontal_symbol == old(self).horizontal_symbol,
            final(self).vertical_symbol == old(self).vertical_symbol,
            final(self).top_left_symbol == old(self).top_left_symbol,
            final(self).top_right_symbol == old(self).top_right_symbol,
            final(self).bottom_right_symbol == old(self).bottom_right_symbol,
    {
        self.bottom_left_symbol.set(String::from_str(symbol));
    }

    /// Get the bottom left symbol.
    pub fn get_bottom_left_symbol(&self) -> (r: String)
        ensures
            r == self.bottom_left_symbol.value,
    {
        self.bottom_left_symbol.value.clone()
    }

    /// Set the bottom right symbol.
    pub fn set_bottom_right_symbol(&mut self, symbol: &str)
        ensures
            symbol_step(*old(self), *final(self)),
            final(self).bottom_right_symbol.name == old(self).bottom_right_symbol.name,
            final(self).bottom_right_symbol.value@ == symbol@,
            final(self).border == old(self).border,
            final(self).horizontal_symbol == old(self).horizontal_symbol,
            final(self).vertical_symbol == old(self).vertical_symbol,
            final(self).top_left_symbol == old(self).top_left_symbol,
            final(self).top_right_symbol == old(self).top_right_symbol,
            final(self).bottom_left_symbol == old(self).bottom_left_symbol,
    {
        self.bottom_right_symbol.set(String::from_str(symbol));
    }

    /// Get the bottom right symbol.
    pub fn get_bottom_right_symbol(&self) -> (r: String)
        ensures
            r == self.bottom_right_symbol.value,
    {
        self.bottom_right_symbol.value.clone()
    }

    /// Unregister all seven properties.
    pub fn clean_up_properties(&self, scheduler: &mut SchedulerFrontend)
        ensures
            unregistered_names(*old(scheduler), *final(scheduler), seq![self.border.name, self.horizontal_symbol.name, self.vertical_symbol.name, self.top_left_symbol.name, self.top_right_symbol.name, self.bottom_left_symbol.name, self.bottom_right_symbol.name]),
    {
        let mut list: Vec<String> = Vec::new();
        list.push(self.border.name.clone());
        list.push(self.horizontal_symbol.name.clone());
        list.push(self.vertical_symbol.name.clone());
        list.push(self.top_left_symbol.name.clone());
        list.push(self.top_right_symbol.name.clone());
        list.push(self.bottom_left_symbol.name.clone());
        list.push(self.bottom_right_symbol.name.clone());
        assert(list@ =~= seq![self.border.name, self.horizontal_symbol.name, self.vertical_symbol.name, self.top_left_symbol.name, self.top_right_symbol.name, self.bottom_left_symbol.name, self.bottom_right_symbol.name]);
        clean_up_properties_named(scheduler, &list);
    }
}

/// Colors of a widget or layout in each situation.
#[derive(PartialEq, Clone, Debug)]
pub struct ColorConfig {
    /// Foreground color of the content.
    pub fg_color: EzProperty<Color>,
    /// Background color of the content.
    pub bg_color: EzProperty<Color>,
    /// Foreground color when selected.
    pub selection_fg_color: EzProperty<Color>,
    /// Background color when selected.
    pub selection_bg_color: EzProperty<Color>,
    /// Foreground color when disabled.
    pub disabled_fg_color: EzProperty<Color>,
    /// Background color when disabled.
    pub disabled_bg_color: EzProperty<Color>,
    /// Foreground color when active.
    pub active_fg_color: EzProperty<Color>,
    /// Background color when active.
    pub active_bg_color: EzProperty<Color>,
    /// Foreground color when flashing.
    pub flash_fg_color: EzProperty<Color>,
    /// Background color when flashing.
    pub flash_bg_color: EzProperty<Color>,
    /// Foreground color of tab headers.
    pub tab_fg_color: EzProperty<Color>,
    /// Background color of tab headers.
    pub tab_bg_color: EzProperty<Color>,
    /// Foreground color of tab header borders.
    pub tab_border_fg_color: EzProperty<Color>,
    /// Background color of tab header borders.
    pub tab_border_bg_color: EzProperty<Color>,
    /// Foreground color of filler pixels.
    pub filler_fg_color: EzProperty<Color>,
    /// Background color of filler pixels.
    pub filler_bg_color: EzProperty<Color>,
    /// Foreground color of border pixels.
    pub border_fg_color: EzProperty<Color>,
    /// Background color of border pixels.
    pub border_bg_color: EzProperty<Color>,
    /// Background color of the position highlighted by the cursor.
    pub cursor_color: EzProperty<Color>,
}

impl ColorConfig {
    /// Color properties named after `name`, with the default colors.
    pub fn new(name: String, scheduler: &mut SchedulerFrontend) -> (r: ColorConfig)
        ensures
            r.fg_color.name@ == name@ + "/fg_color"@,
            r.fg_color.value == Color::White,
            r.bg_color.name@ == name@ + "/bg_color"@,
            r.bg_color.value == Color::Black,
            r.selection_fg_color.name@ == name@ + "/selection_fg_color"@,
            r.selection_fg_color.value == Color::Yellow,
            r.selection_bg_color.name@ == name@ + "/selection_bg_color"@,
            r.selection_bg_color.value == Color::Blue,
            r.disabled_fg_color.name@ == name@ + "/disabled_fg_color"@,
            r.disabled_fg_color.value == Color::White,
            r.disabled_bg_color.name@ == name@ + "/disabled_bg_color"@,
            r.disabled_bg_color.value == Color::Black,
            r.active_fg_color.name@ == name@ + "/active_fg_color"@,
            r.active_fg_color.value == Color::White,
            r.active_bg_color.name@ == name@ + "/active_bg_color"@,
            r.active_bg_color.value == Color::Black,
            r.flash_fg_color.name@ == name@ + "/flash_fg_color"@,
            r.flash_fg_color.value == Color::White,
            r.flash_bg_color.name@ == name@ + "/flash_bg_color"@,
            r.flash_bg_color.value == Color::White,
            r.tab_fg_color.name@ == name@ + "/tab_fg_color"@,
            r.tab_fg_color.value == Color::White,
            r.tab_bg_color.name@ == name@ + "/tab_bg_color"@,
            r.tab_bg_color.value == Color::Black,
            r.tab_border_fg_color.name@ == name@ + "/tab_border_fg_color"@,
            r.tab_border_fg_color.value == Color::White,
            r.tab_border_bg_color.name@ == name@ + "/tab_border_bg_color"@,
            r.tab_border_bg_color.value == Color::Black,
            r.filler_fg_color.name@ == name@ + "/filler_fg_color"@,
            r.filler_fg_color.value == Color::White,
            r.filler_bg_color.name@ == name@ + "/filler_bg_color"@,
            r.filler_bg_color.value == Color::Black,
            r.border_fg_color.name@ == name@ + "/border_fg_color"@,
            r.border_fg_color.value == Color::White,
            r.border_bg_color.name@ == name@ + "/border_bg_color"@,
            r.border_bg_color.value == Color::Black,
            r.cursor_color.name@ == name@ + "/cursor_color"@,
            r.cursor_color.value == Color::DarkYellow,
            new_colors(r, name@, Color::Black),
            registered_names(*old(scheduler), *final(scheduler), seq![r.fg_color.name, r.bg_color.name, r.selection_fg_color.name, r.selection_bg_color.name, r.disabled_fg_color.name, r.disabled_bg_color.name, r.active_fg_color.name, r.active_bg_color.name, r.flash_fg_color.name, r.flash_bg_color.name, r.tab_fg_color.name, r.tab_bg_color.name, r.tab_border_fg_color.name, r.tab_border_bg_color.name, r.filler_fg_color.name, r.filler_bg_color.name, r.border_fg_color.name, r.border_bg_color.name, r.cursor_color.name]),
    {
        let ghost start = scheduler.properties@;
        let fg_color = scheduler.new_property(join_name(&name, "/fg_color"), Color::White);
        let bg_color = scheduler.new_property(join_name(&name, "/bg_color"), Color::Black);
        let selection_fg_color = scheduler.new_property(join_name(&name, "/selection_fg_color"), Color::Yellow);
        let selection_bg_color = scheduler.new_property(join_name(&name, "/selection_bg_color"), Color::Blue);
        let disabled_fg_color = scheduler.new_property(join_name(&name, "/disabled_fg_color"), Color::White);
        let disabled_bg_color = scheduler.new_property(join_name(&name, "/disabled_bg_color"), Color::Black);
        let active_fg_color = scheduler.new_property(join_name(&name, "/active_fg_color"), Color::White);
        let active_bg_color = scheduler.new_property(join_name(&name, "/active_bg_color"), Color::Black);
        let flash_fg_color = scheduler.new_property(join_name(&name, "/flash_fg_color"), Color::White);
        let flash_bg_color = scheduler.new_property(join_name(&name, "/flash_bg_color"), Color::White);
        let tab_fg_color = scheduler.new_property(join_name(&name, "/tab_fg_color"), Color::White);
        let tab_bg_color = scheduler.new_property(join_name(&name, "/tab_bg_color"), Color::Black);
        let tab_border_fg_color = scheduler.new_property(join_name(&name, "/tab_border_fg_color"), Color::White);
        let tab_border_bg_color = scheduler.new_property(join_name(&name, "/tab_border_bg_color"), Color::Black);
        let filler_fg_color = scheduler.new_property(join_name(&name, "/filler_fg_color"), Color::White);
        let filler_bg_color = scheduler.new_property(join_name(&name, "/filler_bg_color"), Color::Black);
        let border_fg_color = scheduler.new_property(join_name(&name, "/border_fg_color"), Color::White);
        let border_bg_color = scheduler.new_property(join_name(&name, "/border_bg_color"), Color::Black);
        let cursor_color = scheduler.new_property(join_name(&name, "/cursor_color"), Color::DarkYellow);
        let r = ColorConfig { fg_color, bg_color, selection_fg_color, selection_bg_color, disabled_fg_color, disabled_bg_color, active_fg_color, active_bg_color, flash_fg_color, flash_bg_color, tab_fg_color, tab_bg_color, tab_border_fg_color, tab_border_bg_color, filler_fg_color, filler_bg_color, border_fg_color, border_bg_color, cursor_color };
        assert(scheduler.properties@ =~= start + seq![r.fg_color.name, r.bg_color.name, r.selection_fg_color.name, r.selection_bg_color.name, r.disabled_fg_color.name, r.disabled_bg_color.name, r.active_fg_color.name, r.active_bg_color.name, r.flash_fg_color.name, r.flash_bg_color.name, r.tab_fg_color.name, r.tab_bg_color.name, r.tab_border_fg_color.name, r.tab_border_bg_color.name, r.filler_fg_color.name, r.filler_bg_color.name, r.border_fg_color.name, r.border_bg_color.name, r.cursor_color.name]);
        r
    }

    /// Set the fg color.
    pub fn set_fg_color(&mut self, color: Color)
        ensures
            *final(self) == (ColorConfig { fg_color: EzProperty { name: old(self).fg_color.name, value: color }, ..*old(self) }),
    {
        self.fg_color.set(color);
    }

    /// Get the fg color.
    pub fn get_fg_color(&self) -> (r: Color)
        ensures
            r == self.fg_color.value,
    {
        self.fg_color.value
    }

    /// Set the bg color.
    pub fn set_bg_color(&mut self, color: Color)
        ensures
            *final(self) == (ColorConfig { bg_color: EzProperty { name: old(self).bg_color.name, value: color }, ..*old(self) }),
    {
        self.bg_color.set(color);
    }

    /// Get the bg color.
    pub fn get_bg_color(&self) -> (r: Color)
        ensures
            r == self.bg_color.value,
    {
        self.bg_color.value
    }

    /// Set the selection fg color.
    pub fn set_selection_fg_color(&mut self, color: Color)
        ensures
            *final(self) == (ColorConfig { selection_fg_color: EzProperty { name: old(self).selection_fg_color.name, value: color }, ..*old(self) }),
    {
        self.selection_fg_color.set(color);
    }

    /// Get the selection fg color.
    pub fn get_selection_fg_color(&self) -> (r: Color)
        ensures
            r == self.selection_fg_color.value,
    {
        self.selection_fg_color.value
    }

    /// Set the selection bg color.
    pub fn set_selection_bg_color(&mut self, color: Color)
        ensures
            *final(self) == (ColorConfig { selection_bg_color: EzProperty { name: old(self).selection_bg_color.name, value: color }, ..*old(self) }),
    {
        self.selection_bg_color.set(color);
    }

    /// Get the selection bg color.
    pub fn get_selection_bg_color(&self) -> (r: Color)
        ensures
            r == self.selection_bg_color.value,
    {
        self.selection_bg_color.value
    }

    /// Set the disabled fg color.
    pub fn set_disabled_fg_color(&mut self, color: Color)
        ensures
            *final(self) == (ColorConfig { disabled_fg_color: EzProperty { name: old(self).disabled_fg_color.name, value: color }, ..*old(self) }),
    {
        self.disabled_fg_color.set(color);
    }

    /// Get the disabled fg color.
    pub fn get_disabled_fg_color(&self) -> (r: Color)
        ensures
            r == self.disabled_fg_color.value,
    {
        self.disabled_fg_color.value
    }

    /// Set the disabled bg color.
    pub fn set_disabled_bg_color(&mut self, color: Color)
        ensures
            *final(self) == (ColorConfig { disabled_bg_color: EzProperty { name: old(self).disabled_bg_color.name, value: color }, ..*old(self) }),
    {
        self.disabled_bg_color.set(color);
    }

    /// Get the disabled bg color.
    pub fn get_disabled_bg_color(&self) -> (r: Color)
        ensures
            r == self.disabled_bg_color.value,
    {
        self.disabled_bg_color.value
    }

    /// Set the active fg color.
    pub fn set_active_fg_color(&mut self, color: Color)
        ensures
            *final(self) == (ColorConfig { active_fg_color: EzProperty { name: old(self).active_fg_color.name, value: color }, ..*old(self) }),
    {
        self.active_fg_color.set(color);
    }

    /// Get the active fg color.
    pub fn get_active_fg_color(&self) -> (r: Color)
        ensures
            r == self.active_fg_color.value,
    {
        self.active_fg_color.value
    }

    /// Set the active bg color.
    pub fn set_active_bg_color(&mut self, color: Color)
        ensures
            *final(self) == (ColorConfig { active_bg_color: EzProperty { name: old(self).active_bg_color.name, value: color }, ..*old(self) }),
    {
        self.active_bg_color.set(color);
    }

    /// Get the active bg color.
    pub fn get_active_bg_color(&self) -> (r: Color)
        ensures
            r == self.active_bg_color.value,
    {
        self.active_bg_color.value
    }

    /// Set the flash fg color.
    pub fn set_flash_fg_color(&mut self, color: Color)
        ensures
            *final(self) == (ColorConfig { flash_fg_color: EzProperty { name: old(self).flash_fg_color.name, value: color }, ..*old(self) }),
    {
        self.flash_fg_color.set(color);
    }

    /// Get the flash fg color.
    pub fn get_flash_fg_color(&self) -> (r: Color)
        ensures
            r == self.flash_fg_color.value,
    {
        self.flash_fg_color.value
    }

    /// Set the flash bg color.
    pub fn set_flash_bg_color(&mut self, color: Color)
        ensures
            *final(self) == (ColorConfig { flash_bg_color: EzProperty { name: old(self).flash_bg_color.name, value: color }, ..*old(self) }),
    {
        self.flash_bg_color.set(color);
    }

    /// Get the flash bg color.
    pub fn get_flash_bg_color(&self) -> (r: Color)
        ensures
            r == self.flash_bg_color.value,
    {
        self.flash_bg_color.value
    }

    /// Set the tab fg color.
    pub fn set_tab_fg_color(&mut self, color: Color)
        ensures
            *final(self) == (ColorConfig { tab_fg_color: EzProperty { name: old(self).tab_fg_color.name, value: color }, ..*old(self) }),
    {
        self.tab_fg_color.set(color);
    }

    /// Get the tab fg color.
    pub fn get_tab_fg_color(&self) -> (r: Color)
        ensures
            r == self.tab_fg_color.value,
    {
        self.tab_fg_color.value
    }

    /// Set the tab bg color.
    pub fn set_tab_bg_color(&mut self, color: Color)
        ensures
            *final(self) == (ColorConfig { tab_bg_color: EzProperty { name: old(self).tab_bg_color.name, value: color }, ..*old(self) }),
    {
        self.tab_bg_color.set(color);
    }

    /// Get the tab bg color.
    pub fn get_tab_bg_color(&self) -> (r: Color)
        ensures
            r == self.tab_bg_color.value,
    {
        self.tab_bg_color.value
    }

    /// Set the tab border fg color.
    pub fn set_tab_border_fg_color(&mut self, color: Color)
        ensures
            *final(self) == (ColorConfig { tab_border_fg_color: EzProperty { name: old(self).tab_border_fg_color.name, value: color }, ..*old(self) }),
    {
        self.tab_border_fg_color.set(color);
    }

    /// Get the tab border fg color.
    pub fn get_tab_border_fg_color(&self) -> (r: Color)
        ensures
            r == self.tab_border_fg_color.value,
    {
        self.tab_border_fg_color.value
    }

    /// Set the tab border bg color.
    pub fn set_tab_border_bg_color(&mut self, color: Color)
        ensures
            *final(self) == (ColorConfig { tab_border_bg_color: EzProperty { name: old(self).tab_border_bg_color.name, value: color }, ..*old(self) }),
    {
        self.tab_border_bg_color.set(color);
    }

    /// Get the tab border bg color.
    pub fn get_tab_border_bg_color(&self) -> (r: Color)
        ensures
            r == self.tab_border_bg_color.value,
    {
        self.tab_border_bg_color.value
    }

    /// Set the filler fg color.
    pub fn set_filler_fg_color(&mut self, color: Color)
        ensures
            *final(self) == (ColorConfig { filler_fg_color: EzProperty { name: old(self).filler_fg_color.name, value: color }, ..*old(self) }),
    {
        self.filler_fg_color.set(color);
    }

    /// Get the filler fg color.
    pub fn get_filler_fg_color(&self) -> (r: Color)
        ensures
            r == self.filler_fg_color.value,
    {
        self.filler_fg_color.value
    }

    /// Set the filler bg color.
    pub fn set_filler_bg_color(&mut self, color: Color)
        ensures
            *final(self) == (ColorConfig { filler_bg_color: EzProperty { name: old(self).filler_bg_color.name, value: color }, ..*old(self) }),
    {
        self.filler_bg_color.set(color);
    }

    /// Get the filler bg color.
    pub fn get_filler_bg_color(&self) -> (r: Color)
        ensures
            r == self.filler_bg_color.value,
    {
        self.filler_bg_color.value
    }

    /// Set the border fg color.
    pub fn set_border_fg_color(&mut self, color: Color)
        ensures
            *final(self) == (ColorConfig { border_fg_color: EzProperty { name: old(self).border_fg_color.name, value: color }, ..*old(self) }),
    {
        self.border_fg_color.set(color);
    }

    /// Get the border fg color.
    pub fn get_border_fg_color(&self) -> (r: Color)
        ensures
            r == self.border_fg_color.value,
    {
        self.border_fg_color.value
    }

    /// Set the border bg color.
    pub fn set_border_bg_color(&mut self, color: Color)
        ensures
            *final(self) == (ColorConfig { border_bg_color: EzProperty { name: old(self).border_bg_color.name, value: color }, ..*old(self) }),
    {
        self.border_bg_color.set(color);
    }

    /// Get the border bg color.
    pub fn get_border_bg_color(&self) -> (r: Color)
        ensures
            r == self.border_bg_color.value,
    {
        self.border_bg_color.value
    }

    /// Set the cursor color.
    pub fn set_cursor_color(&mut self, color: Color)
        ensures
            *final(self) == (ColorConfig { cursor_color: EzProperty { name: old(self).cursor_color.name, value: color }, ..*old(self) }),
    {
        self.cursor_color.set(color);
    }

    /// Get the cursor color.
    pub fn get_cursor_color(&self) -> (r: Color)
        ensures
            r == self.cursor_color.value,
    {
        self.cursor_color.value
    }

    /// Unregister the color properties except the tab border colors.
    pub fn clean_up_properties(&self, scheduler: &mut SchedulerFrontend)
        ensures
            unregistered_names(*old(scheduler), *final(scheduler), seq![self.fg_color.name, self.bg_color.name, self.selection_fg_color.name, self.selection_bg_color.name, self.disabled_fg_color.name, self.disabled_bg_color.name, self.active_fg_color.name, self.active_bg_color.name, self.flash_fg_color.name, self.flash_bg_color.name, self.tab_fg_color.name, self.tab_bg_color.name, self.filler_fg_color.name, self.filler_bg_color.name, self.border_fg_color.name, self.border_bg_color.name, self.cursor_color.name]),
    {
        let mut list: Vec<String> = Vec::new();
        list.push(self.fg_color.name.clone());
        list.push(self.bg_color.name.clone());
        list.push(self.selection_fg_color.name.clone());
        list.push(self.selection_bg_color.name.clone());
        list.push(self.disabled_fg_color.name.clone());
        list.push(self.disabled_bg_color.name.clone());
        list.push(self.active_fg_color.name.clone());
        list.push(self.active_bg_color.name.clone());
        list.push(self.flash_fg_color.name.clone());
        list.push(self.flash_bg_color.name.clone());
        list.push(self.tab_fg_color.name.clone());
        list.push(self.tab_bg_color.name.clone());
        list.push(self.filler_fg_color.name.clone());
        list.push(self.filler_bg_color.name.clone());
        list.push(self.border_fg_color.name.clone());
        list.push(self.border_bg_color.name.clone());
        list.push(self.cursor_color.name.clone());
        assert(list@ =~= seq![self.fg_color.name, self.bg_color.name, self.selection_fg_color.name, self.selection_bg_color.name, self.disabled_fg_color.name, self.disabled_bg_color.name, self.active_fg_color.name, self.active_bg_color.name, self.flash_fg_color.name, self.flash_bg_color.name, self.tab_fg_color.name, self.tab_bg_color.name, self.filler_fg_color.name, self.filler_bg_color.name, self.border_fg_color.name, self.border_bg_color.name, self.cursor_color.name]);
        clean_up_properties_named(scheduler, &list);
    }
}

/// Whether content may grow without bound on each axis (used for scrolling).
#[derive(PartialEq, Eq, Structural, Clone, Copy, Debug, Default)]
pub struct InfiniteSize {
    /// Width may grow without bound.
    pub width: bool,
    /// Height may grow without bound.
    pub height: bool,
}

impl InfiniteSize {
    /// Set whether width may grow without bound.
    pub fn set_width(&mut self, force: bool)
        ensures
            *final(self) == (InfiniteSize { width: force, ..*old(self) }),
    {
        self.width = force;
    }

    /// Whether width may grow without bound.
    pub fn get_width(&self) -> (r: bool)
        ensures
            r == self.width,
    {
        self.width
    }

    /// Set whether height may grow without bound.
    pub fn set_height(&mut self, force: bool)
        ensures
            *final(self) == (InfiniteSize { height: force, ..*old(self) }),
    {
        self.height = force;
    }

    /// Whether height may grow without bound.
    pub fn get_height(&self) -> (r: bool)
        ensures
            r == self.height,
    {
        self.height
    }
}


impl BorderConfig {
    /// A copy of the border configuration.
    pub fn duplicate(&self) -> (r: BorderConfig)
        ensures
            r == *self,
    {
        BorderConfig { border: self.border.duplicate(), horizontal_symbol: self.horizontal_symbol.duplicate_text(), vertical_symbol: self.vertical_symbol.duplicate_text(), top_left_symbol: self.top_left_symbol.duplicate_text(), top_right_symbol: self.top_right_symbol.duplicate_text(), bottom_left_symbol: self.bottom_left_symbol.duplicate_text(), bottom_right_symbol: self.bottom_right_symbol.duplicate_text() }
    }
}

impl ColorConfig {
    /// A copy of the color configuration.
    pub fn duplicate(&self) -> (r: ColorConfig)
        ensures
            r == *self,
    {
        ColorConfig { fg_color: self.fg_color.duplicate(), bg_color: self.bg_color.duplicate(), selection_fg_color: self.selection_fg_color.duplicate(), selection_bg_color: self.selection_bg_color.duplicate(), disabled_fg_color: self.disabled_fg_color.duplicate(), disabled_bg_color: self.disabled_bg_color.duplicate(), active_fg_color: self.active_fg_color.duplicate(), active_bg_color: self.active_bg_color.duplicate(), flash_fg_color: self.flash_fg_color.duplicate(), flash_bg_color: self.flash_bg_color.duplicate(), tab_fg_color: self.tab_fg_color.duplicate(), tab_bg_color: self.tab_bg_color.duplicate(), tab_border_fg_color: self.tab_border_fg_color.duplicate(), tab_border_bg_color: self.tab_border_bg_color.duplicate(), filler_fg_color: self.filler_fg_color.duplicate(), filler_bg_color: self.filler_bg_color.duplicate(), border_fg_color: self.border_fg_color.duplicate(), border_bg_color: self.border_bg_color.duplicate(), cursor_color: self.cursor_color.duplicate() }
    }
}

} // verus!
