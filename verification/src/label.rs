//! Label widget state: its text, and the text wrapped and laid out over the label.
use vstd::prelude::*;
use crate::pixel::{Color, Coordinates, IsizeCoordinates, Size};
use crate::scheduler::{EzProperty, SchedulerFrontend, join_name};
use crate::definitions::{StateCoordinates, StateSize, InfiniteSize, AutoScale, Padding,
    HorizontalAlignment, VerticalAlignment, BorderConfig, ColorConfig, registered_names,
    new_coordinates, new_size, new_auto_scale, new_padding, new_border, new_colors};
use crate::geometry::{effective_size_of, get_effective_size, outer_length, outer_length_of};
use crate::state::RedrawWidgetState;
use crate::pixel::{Pixel, PixelMap, PixelView, plain_pixel, grid, column, lemma_grid_push};
use crate::helpers::{add_border, add_padding, framed, padded, space_pixel};
use crate::layout::{max_height, largest_height};
use crate::strings::{byte_len, string_of_char, utf8_len};
use crate::wrap::{wrapped, wrap_text};
use crate::text::{extended_graphemes, graphemes};
use crate::scheduler::names;

verus! {
/// Runtime state of a label widget.
#[derive(Clone, Debug)]
pub struct LabelState {
    /// Path of the widget this state belongs to.
    pub path: String,
    /// Position relative to the parent layout.
    pub position: StateCoordinates,
    /// Absolute position on screen.
    pub absolute_position: IsizeCoordinates,
    /// Size of the widget.
    pub size: StateSize,
    /// Whether the widget may grow without bound on each axis.
    pub infinite_size: InfiniteSize,
    /// Whether the size follows the content.
    pub auto_scale: AutoScale,
    /// Space left around the widget.
    pub padding: Padding,
    /// Horizontal alignment.
    pub halign: EzProperty<HorizontalAlignment>,
    /// Vertical alignment.
    pub valign: EzProperty<VerticalAlignment>,
    /// Text shown by the label.
    pub text: String,
    /// Whether the state changed since it was last drawn.
    pub changed: bool,
    /// Whether the widget must be redrawn even if unchanged.
    pub force_redraw: bool,
    /// Whether the widget cannot be interacted with.
    pub disabled: EzProperty<bool>,
    /// Order in which the widget is selected by keyboard.
    pub selection_order: EzProperty<usize>,
    /// Border of the widget.
    pub border_config: BorderConfig,
    /// Colors of the widget.
    pub colors: ColorConfig,
}

impl LabelState {
    /// A state for the widget at `path`, registering its properties under that path.
    pub fn new(path: String, scheduler: &mut SchedulerFrontend) -> (r: LabelState)
        ensures
            r.path == path,
            r.position.x.value == 0,
            r.position.y.value == 0,
            r.position.x.name@ == path@ + "/x"@,
            r.position.y.name@ == path@ + "/y"@,
            r.absolute_position == (IsizeCoordinates { x: 0, y: 0 }),
            r.size.width.value == 0,
            r.size.height.value == 0,
            r.size.width.name@ == path@ + "/width"@,
            r.size.height.name@ == path@ + "/height"@,
            r.infinite_size == (InfiniteSize { width: false, height: false }),
            r.auto_scale.auto_scale_width.value == false,
            r.auto_scale.auto_scale_height.value == false,
            r.padding.padding_top.value == 0,
            r.padding.padding_bottom.value == 0,
            r.padding.padding_left.value == 0,
            r.padding.padding_right.value == 0,
            r.halign.value == HorizontalAlignment::Left,
            r.halign.name@ == path@ + "/halign"@,
            r.valign.value == VerticalAlignment::Top,
            r.valign.name@ == path@ + "/valign"@,
            r.text@ == Seq::<char>::empty(),
            !r.changed,
            !r.force_redraw,
            r.disabled.value == false,
            r.disabled.name@ == path@ + "/disabled"@,
            r.selection_order.value == 0,
            r.selection_order.name@ == path@ + "/selection_order"@,
            r.border_config.border.value == false,
            r.is_fresh(path),
            registered_names(*old(scheduler), *final(scheduler), r.property_names()),
    {
        let ghost start = *scheduler;
        let position: StateCoordinates = StateCoordinates::new(0, 0, path.clone(), scheduler);
        let absolute_position: IsizeCoordinates = IsizeCoordinates::new(0, 0);
        let size: StateSize = StateSize::new(0, 0, path.clone(), scheduler);
        let infinite_size: InfiniteSize = InfiniteSize { width: false, height: false };
        let auto_scale: AutoScale = AutoScale::new(false, false, path.clone(), scheduler);
        let padding: Padding = Padding::new(0, 0, 0, 0, path.clone(), scheduler);
        let halign: EzProperty<HorizontalAlignment> = scheduler.new_property(join_name(&path, "/halign"), HorizontalAlignment::Left);
        let valign: EzProperty<VerticalAlignment> = scheduler.new_property(join_name(&path, "/valign"), VerticalAlignment::Top);
        let text: String = String::new();
        let changed: bool = false;
        let force_redraw: bool = false;
        let disabled: EzProperty<bool> = scheduler.new_property(join_name(&path, "/disabled"), false);
        let selection_order: EzProperty<usize> = scheduler.new_property(join_name(&path, "/selection_order"), 0);
        let border_config: BorderConfig = BorderConfig::new(false, path.clone(), scheduler);
        let colors: ColorConfig = ColorConfig::new(path.clone(), scheduler);
        let r = LabelState { path, position, absolute_position, size, infinite_size, auto_scale, padding, halign, valign, text, changed, force_redraw, disabled, selection_order, border_config, colors };
        assert(scheduler.properties@ =~= start.properties@ + seq![r.position.x.name, r.position.y.name, r.size.width.name, r.size.height.name, r.auto_scale.auto_scale_width.name, r.auto_scale.auto_scale_height.name, r.padding.padding_top.name, r.padding.padding_bottom.name, r.padding.padding_left.name, r.padding.padding_right.name, r.halign.name, r.valign.name, r.disabled.name, r.selection_order.name, r.border_config.border.name, r.border_config.horizontal_symbol.name, r.border_config.vertical_symbol.name, r.border_config.top_left_symbol.name, r.border_config.top_right_symbol.name, r.border_config.bottom_left_symbol.name, r.border_config.bottom_right_symbol.name, r.colors.fg_color.name, r.colors.bg_color.name, r.colors.selection_fg_color.name, r.colors.selection_bg_color.name, r.colors.disabled_fg_color.name, r.colors.disabled_bg_color.name, r.colors.active_fg_color.name, r.colors.active_bg_color.name, r.colors.flash_fg_color.name, r.colors.flash_bg_color.name, r.colors.tab_fg_color.name, r.colors.tab_bg_color.name, r.colors.tab_border_fg_color.name, r.colors.tab_border_bg_color.name, r.colors.filler_fg_color.name, r.colors.filler_bg_color.name, r.colors.border_fg_color.name, r.colors.border_bg_color.name, r.colors.cursor_color.name]);
        r
    }

    /// Whether this is the state [`LabelState::new`] builds for the widget at `path`.
    pub open spec fn is_fresh(&self, path: String) -> bool {
        &&& self.path == path
        &&& self.position.x.value == 0
        &&& self.position.y.value == 0
        &&& self.position.x.name@ == path@ + "/x"@
        &&& self.position.y.name@ == path@ + "/y"@
        &&& new_coordinates(self.position, 0, 0, path@)
        &&& self.absolute_position == (IsizeCoordinates { x: 0, y: 0 })
        &&& self.size.width.value == 0
        &&& self.size.height.value == 0
        &&& self.size.width.name@ == path@ + "/width"@
        &&& self.size.height.name@ == path@ + "/height"@
        &&& new_size(self.size, 0, 0, path@)
        &&& self.infinite_size == (InfiniteSize { width: false, height: false })
        &&& self.auto_scale.auto_scale_width.value == false
        &&& self.auto_scale.auto_scale_height.value == false
        &&& new_auto_scale(self.auto_scale, false, false, path@)
        &&& self.padding.padding_top.value == 0
        &&& self.padding.padding_bottom.value == 0
        &&& self.padding.padding_left.value == 0
        &&& self.padding.padding_right.value == 0
        &&& new_padding(self.padding, 0, 0, 0, 0, path@)
        &&& self.halign.value == HorizontalAlignment::Left
        &&& self.halign.name@ == path@ + "/halign"@
        &&& self.valign.value == VerticalAlignment::Top
        &&& self.valign.name@ == path@ + "/valign"@
        &&& self.text@ == Seq::<char>::empty()
        &&& !self.changed
        &&& !self.force_redraw
        &&& self.disabled.value == false
        &&& self.disabled.name@ == path@ + "/disabled"@
        &&& self.selection_order.value == 0
        &&& self.selection_order.name@ == path@ + "/selection_order"@
        &&& self.border_config.border.value == false
        &&& new_border(self.border_config, false, path@)
        &&& new_colors(self.colors, path@, Color::Black)
    }

    /// The names of the properties of this state, in the order [`LabelState::new`] registers them.
    pub open spec fn property_names(&self) -> Seq<String> {
        seq![self.position.x.name, self.position.y.name, self.size.width.name, self.size.height.name, self.auto_scale.auto_scale_width.name, self.auto_scale.auto_scale_height.name, self.padding.padding_top.name, self.padding.padding_bottom.name, self.padding.padding_left.name, self.padding.padding_right.name, self.halign.name, self.valign.name, self.disabled.name, self.selection_order.name, self.border_config.border.name, self.border_config.horizontal_symbol.name, self.border_config.vertical_symbol.name, self.border_config.top_left_symbol.name, self.border_config.top_right_symbol.name, self.border_config.bottom_left_symbol.name, self.border_config.bottom_right_symbol.name, self.colors.fg_color.name, self.colors.bg_color.name, self.colors.selection_fg_color.name, self.colors.selection_bg_color.name, self.colors.disabled_fg_color.name, self.colors.disabled_bg_color.name, self.colors.active_fg_color.name, self.colors.active_bg_color.name, self.colors.flash_fg_color.name, self.colors.flash_bg_color.name, self.colors.tab_fg_color.name, self.colors.tab_bg_color.name, self.colors.tab_border_fg_color.name, self.colors.tab_border_bg_color.name, self.colors.filler_fg_color.name, self.colors.filler_bg_color.name, self.colors.border_fg_color.name, self.colors.border_bg_color.name, self.colors.cursor_color.name]
    }
}

impl LabelState {
    /// The size left for content inside the border and padding.
    pub fn get_effective_size(&self) -> (r: Size)
        ensures
            r == effective_size_of(self.size, self.border_config, self.padding),
    {
        get_effective_size(&self.size, &self.border_config, &self.padding)
    }

    /// Set the width so that `width` columns are left for content.
    pub fn set_effective_width(&mut self, width: usize)
        requires
            outer_length(width as nat, old(self).border_config.border.value,
                old(self).padding.padding_left.value as nat,
                old(self).padding.padding_right.value as nat) <= usize::MAX,
        ensures
            final(self).size.width.value as nat == outer_length(width as nat,
                old(self).border_config.border.value, old(self).padding.padding_left.value as nat,
                old(self).padding.padding_right.value as nat),
            *final(self) == (LabelState { size: StateSize { width: EzProperty {
                name: old(self).size.width.name, value: final(self).size.width.value },
                ..old(self).size }, ..*old(self) }),
    {
        let w = outer_length_of(width, self.border_config.border.value,
            self.padding.padding_left.value, self.padding.padding_right.value);
        self.size.width.set(w);
    }

    /// Set the height so that `height` rows are left for content.
    pub fn set_effective_height(&mut self, height: usize)
        requires
            outer_length(height as nat, old(self).border_config.border.value,
                old(self).padding.padding_top.value as nat,
                old(self).padding.padding_bottom.value as nat) <= usize::MAX,
        ensures
            final(self).size.height.value as nat == outer_length(height as nat,
                old(self).border_config.border.value, old(self).padding.padding_top.value as nat,
                old(self).padding.padding_bottom.value as nat),
            *final(self) == (LabelState { size: StateSize { height: EzProperty {
                name: old(self).size.height.name, value: final(self).size.height.value },
                ..old(self).size }, ..*old(self) }),
    {
        let h = outer_length_of(height, self.border_config.border.value,
            self.padding.padding_top.value, self.padding.padding_bottom.value);
        self.size.height.set(h);
    }

    /// Set the text; the state is marked changed when the text differs.
    pub fn set_text(&mut self, text: String)
        ensures
            *final(self) == (LabelState { text, changed: old(self).changed || old(self).text@ != text@,
                ..*old(self) }),
    {
        if !self.text.eq(&text) {
            self.changed = true;
        }
        self.text = text;
    }

    /// The text.
    pub fn get_text(&self) -> (r: String)
        ensures
            r == self.text,
    {
        self.text.clone()
    }

    /// Mark whether the state changed since it was last drawn.
    pub fn set_changed(&mut self, changed: bool)
        ensures
            *final(self) == (LabelState { changed, ..*old(self) }),
    {
        self.changed = changed;
    }

    /// Whether the state changed since it was last drawn.
    pub fn get_changed(&self) -> (r: bool)
        ensures
            r == self.changed,
    {
        self.changed
    }
}

impl RedrawWidgetState for LabelState {
    open spec fn redraw_forced(&self) -> bool {
        self.force_redraw
    }

    fn set_force_redraw(&mut self, redraw: bool) {
        self.force_redraw = redraw;
        self.changed = true;
    }

    fn get_force_redraw(&self) -> (r: bool) {
        self.force_redraw
    }
}

/// The plain pixels of a text: one per grapheme cluster, in the given colors.
pub open spec fn plain_pixels(text: Seq<char>, fg: Color, bg: Color) -> Seq<PixelView> {
    extended_graphemes(text).map_values(|g: Seq<char>| plain_pixel(g, fg, bg))
}

/// The width a label wraps its text to: its text's byte length plus one when it follows its
/// content or may grow without bound, else its effective width.
pub open spec fn label_write_width(s: LabelState) -> nat {
    if s.infinite_size.width || s.auto_scale.auto_scale_width.value {
        utf8_len(s.text@) + 1
    } else {
        effective_size_of(s.size, s.border_config, s.padding).width as nat
    }
}

/// The wrapped lines of a label's text, in its colors.
pub open spec fn label_lines(s: LabelState) -> Option<Seq<Seq<PixelView>>> {
    wrapped(s.text@, plain_pixels(s.text@, s.colors.fg_color.value, s.colors.bg_color.value),
        label_write_width(s))
}

/// A size with its width replaced.
pub open spec fn with_width(size: StateSize, width: nat) -> StateSize {
    StateSize { width: EzProperty { name: size.width.name, value: width as usize }, ..size }
}

/// A size with its height replaced.
pub open spec fn with_height(size: StateSize, height: nat) -> StateSize {
    StateSize { height: EzProperty { name: size.height.name, value: height as usize }, ..size }
}

/// A label's size once it followed its wrapped lines: a label that may grow without bound
/// takes the longest line across and the number of lines down; then a label that follows
/// its content shrinks to them where they are smaller than its effective size.
pub open spec fn label_size_after(s: LabelState, lines: Seq<Seq<PixelView>>) -> StateSize {
    let longest = max_height(lines);
    let b = s.border_config.border.value;
    let (pt, pb, pl, pr) = (s.padding.padding_top.value as nat, s.padding.padding_bottom.value as nat,
        s.padding.padding_left.value as nat, s.padding.padding_right.value as nat);
    let s1 = if s.infinite_size.width { with_width(s.size, outer_length(longest, b, pl, pr)) } else { s.size };
    let s2 = if s.infinite_size.height { with_height(s1, outer_length(lines.len(), b, pt, pb)) } else { s1 };
    let s3 = if s.auto_scale.auto_scale_width.value
        && longest < effective_size_of(s2, s.border_config, s.padding).width {
        with_width(s2, outer_length(longest, b, pl, pr)) } else { s2 };
    if s.auto_scale.auto_scale_height.value && lines.len() < effective_size_of(s3, s.border_config, s.padding).height {
        with_height(s3, outer_length(lines.len(), b, pt, pb)) } else { s3 }
}

/// The cells of a label: `width` by `height`, a line's pixel where it reaches, a space in
/// the label's colors elsewhere.
pub open spec fn label_cells(lines: Seq<Seq<PixelView>>, width: nat, height: nat, e: PixelView)
    -> Seq<Seq<PixelView>> {
    Seq::new(width, |x: int| Seq::new(height, |y: int|
        if y < lines.len() && x < lines[y].len() { lines[y][x] } else { e }))
}

/// Whether a label's size can follow its lines without overflow.
pub open spec fn label_size_fits(s: LabelState, lines: Seq<Seq<PixelView>>) -> bool {
    &&& (s.infinite_size.width || s.auto_scale.auto_scale_width.value) ==> outer_length(max_height(lines),
        s.border_config.border.value, s.padding.padding_left.value as nat,
        s.padding.padding_right.value as nat) <= usize::MAX
    &&& (s.infinite_size.height || s.auto_scale.auto_scale_height.value) ==> outer_length(lines.len(),
        s.border_config.border.value, s.padding.padding_top.value as nat,
        s.padding.padding_bottom.value as nat) <= usize::MAX
}

/// The pixels of a text, one per grapheme cluster.
fn text_pixels(text: &String, fg: Color, bg: Color) -> (r: Vec<Pixel>)
    ensures
        column(r@) == plain_pixels(text@, fg, bg),
{
    let gs = graphemes(text);
    let ghost goal = plain_pixels(text@, fg, bg);
    let mut r: Vec<Pixel> = Vec::new();
    let mut i: usize = 0;
    while i < gs.len()
        invariant
            i <= gs@.len(),
            goal == plain_pixels(text@, fg, bg),
            names(gs@) == extended_graphemes(text@),
            column(r@) == goal.take(i as int),
        decreases gs@.len() - i,
    {
        let p = Pixel::new(gs[i].clone(), fg, bg);
        let ghost before = r@;
        r.push(p);
        proof {
            crate::pixel::lemma_column_push(before, p);
            assert(names(gs@)[i as int] == gs@[i as int]@);
            assert(column(r@) =~= goal.take(i + 1));
        }
        i = i + 1;
    }
    assert(goal.take(gs@.len() as int) =~= goal);
    r
}

/// Lay wrapped lines out over `width` by `height` cells (see [`label_cells`]).
fn lines_to_cells(lines: &Vec<Vec<Pixel>>, width: usize, height: usize, e: &Pixel) -> (r: PixelMap)
    ensures
        grid(&r) == label_cells(grid(lines), width as nat, height as nat, e@),
{
    let ghost goal = label_cells(grid(lines), width as nat, height as nat, e@);
    let mut result: PixelMap = Vec::new();
    let mut x: usize = 0;
    while x < width
        invariant
            x <= width,
            goal == label_cells(grid(lines), width as nat, height as nat, e@),
            grid(&result) == goal.take(x as int),
        decreases width - x,
    {
        let mut col: Vec<Pixel> = Vec::new();
        let mut y: usize = 0;
        while y < height
            invariant
                y <= height,
                x < width,
                goal == label_cells(grid(lines), width as nat, height as nat, e@),
                column(col@) == goal[x as int].take(y as int),
            decreases height - y,
        {
            let p = if y < lines.len() && x < lines[y].len() { lines[y][x].duplicate() } else { e.duplicate() };
            let ghost before = col@;
            col.push(p);
            proof {
                crate::pixel::lemma_column_push(before, p);
                if y < lines@.len() {
                    assert(grid(lines)[y as int] == column(lines@[y as int]@));
                }
                assert(column(col@) =~= goal[x as int].take(y + 1));
            }
            y = y + 1;
        }
        assert(goal[x as int].take(height as int) =~= goal[x as int]);
        let ghost old_res = result@;
        let ghost cv = col;
        result.push(col);
        proof { lemma_grid_push(old_res, cv); }
        x = x + 1;
        assert(grid(&result) =~= goal.take(x as int));
    }
    assert(goal.take(width as int) =~= goal);
    result
}

/// Draw a label: wrap its text (one pixel per grapheme cluster, in its colors) to its width,
/// follow the lines in size where it may grow without bound or follows its content (see
/// [`label_size_after`]), lay the lines out over its effective size, frame them when it has
/// a border, and pad them in its parent's colors. Returns `None`, leaving the state as it
/// was, when wrapping runs out of pixels.
pub fn get_label_contents(state: &mut LabelState, parent_fg: Color, parent_bg: Color) -> (r: Option<PixelMap>)
    requires
        utf8_len(old(state).text@) < usize::MAX,
        label_lines(*old(state)) matches Some(lines) ==> label_size_fits(*old(state), lines),
    ensures
        match label_lines(*old(state)) {
            None => r is None && *final(state) == *old(state),
            Some(lines) => {
                let size = label_size_after(*old(state), lines);
                let eff = effective_size_of(size, old(state).border_config, old(state).padding);
                let cells = label_cells(lines, eff.width as nat, eff.height as nat,
                    space_pixel(old(state).colors.fg_color.value, old(state).colors.bg_color.value));
                let shown = if old(state).border_config.border.value {
                    framed(cells, old(state).border_config, old(state).colors) } else { cells };
                &&& r matches Some(m) && grid(&m) == padded(shown, old(state).padding.padding_top.value as nat,
                    old(state).padding.padding_bottom.value as nat, old(state).padding.padding_left.value as nat,
                    old(state).padding.padding_right.value as nat, space_pixel(parent_fg, parent_bg))
                &&& *final(state) == (LabelState { size, ..*old(state) })
            },
        },
{
    let fg = state.colors.fg_color.value;
    let bg = state.colors.bg_color.value;
    let write_width = if state.infinite_size.width || state.auto_scale.auto_scale_width.value {
        byte_len(&state.text) + 1
    } else {
        state.get_effective_size().width
    };
    let pixels = text_pixels(&state.text, fg, bg);
    let lines = match wrap_text(&state.text, write_width, &pixels) {
        None => { return None; },
        Some(l) => l,
    };
    assert(grid(&lines).len() == lines@.len());
    let longest = largest_height(&lines);
    if state.infinite_size.width {
        state.set_effective_width(longest);
    }
    if state.infinite_size.height {
        state.set_effective_height(lines.len());
    }
    if state.auto_scale.auto_scale_width.value && longest < state.get_effective_size().width {
        state.set_effective_width(longest);
    }
    if state.auto_scale.auto_scale_height.value && lines.len() < state.get_effective_size().height {
        state.set_effective_height(lines.len());
    }
    let eff = state.get_effective_size();
    let e = Pixel::new(string_of_char(' '), fg, bg);
    let cells = lines_to_cells(&lines, eff.width, eff.height, &e);
    let shown = if state.border_config.border.value {
        add_border(cells, &state.border_config, &state.colors)
    } else {
        cells
    };
    Some(add_padding(shown, &state.padding, parent_bg, parent_fg))
}

/// A label that follows its content across (and may not grow without bound) ends up as wide
/// as its longest line when that is narrower than it was, and keeps its width otherwise.
pub proof fn lemma_label_shrinks_to_lines(s: LabelState, lines: Seq<Seq<PixelView>>)
    requires
        s.auto_scale.auto_scale_width.value,
        !s.infinite_size.width,
        outer_length(max_height(lines), s.border_config.border.value, s.padding.padding_left.value as nat,
            s.padding.padding_right.value as nat) <= usize::MAX,
    ensures
        ({
            let before = effective_size_of(s.size, s.border_config, s.padding).width as nat;
            let after = effective_size_of(label_size_after(s, lines), s.border_config, s.padding).width as nat;
            after == if max_height(lines) < before { max_height(lines) } else { before }
        }),
{
    crate::geometry::lemma_content_of_outer(max_height(lines), s.border_config.border.value,
        s.padding.padding_left.value as nat, s.padding.padding_right.value as nat);
}

/// A label widget.
pub struct Label {
    /// Identifier of the widget within its layout.
    pub id: String,
    /// Full path of the widget, e.g. "/root/layout/label".
    pub path: String,
    /// Runtime state.
    pub state: LabelState,
}

impl Label {
    /// A label with a fresh state registered under `path`.
    pub fn new(id: String, path: String, scheduler: &mut SchedulerFrontend) -> (r: Label)
        ensures
            r.id == id,
            r.path == path,
            r.state.path == path,
            r.state.text@ == Seq::<char>::empty(),
            r.state.is_fresh(path),
            registered_names(*old(scheduler), *final(scheduler), r.state.property_names()),
    {
        let state = LabelState::new(path.clone(), scheduler);
        Label { id, path, state }
    }
}

} // verus!
