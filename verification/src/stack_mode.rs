//! Stack layouts: children are placed one after the other in rows or columns, in one of
//! eight orders (left to right or right to left, top to bottom or bottom to top, rows or
//! columns first), over a background of filler.
use vstd::prelude::*;
use crate::pixel::{Coordinates, Pixel, PixelMap, PixelView, grid, column, lemma_grid_push, copy_column};
use crate::definitions::{ColorConfig, LayoutOrientation};
use crate::layout::{max_height, largest_height, overlay, overlaid};
use crate::float_mode::{float_background, float_filler, filled_columns, last_filled_column};
use crate::pixel::repeat;

verus! {

/// Where the stacking is: the current position, and the furthest column and row written so
/// far on the side the order tracks (the largest or the smallest, see [`tracks_largest_x`]
/// and [`tracks_largest_y`]).
pub struct StackCursor {
    pub x: int,
    pub y: int,
    pub edge_x: int,
    pub edge_y: int,
}

/// What happens to the next child: the layout cannot be stacked (a position would leave the
/// numbers the layout is measured in), stacking stops, or the child goes at the cursor's
/// position.
pub enum Placement {
    Panic,
    Stop,
    At(StackCursor),
}

/// Whether a value fits in a `usize`.
pub open spec fn fits(v: int) -> bool {
    0 <= v <= usize::MAX
}

/// Whether an order tracks the largest column written (else the smallest).
pub open spec fn tracks_largest_x(o: LayoutOrientation) -> bool {
    match o {
        LayoutOrientation::LeftRightTopBottom | LayoutOrientation::LeftRightBottomTop
        | LayoutOrientation::TopBottomLeftRight | LayoutOrientation::BottomTopLeftRight => true,
        _ => false,
    }
}

/// Whether an order tracks the largest row written (else the smallest).
pub open spec fn tracks_largest_y(o: LayoutOrientation) -> bool {
    match o {
        LayoutOrientation::LeftRightTopBottom | LayoutOrientation::RightLeftTopBottom
        | LayoutOrientation::TopBottomLeftRight | LayoutOrientation::TopBottomRightLeft => true,
        _ => false,
    }
}

/// Whether an order starts at the right edge.
pub open spec fn starts_right(o: LayoutOrientation) -> bool {
    !tracks_largest_x(o)
}

/// Whether an order starts at the bottom edge.
pub open spec fn starts_bottom(o: LayoutOrientation) -> bool {
    !tracks_largest_y(o)
}

/// The cursor before the first child: at the start corner of the order, with the edges
/// there. `None` where the corner lies outside an empty layout.
pub open spec fn stack_start(o: LayoutOrientation, w: int, h: int) -> Option<StackCursor> {
    if (starts_right(o) && w == 0) || (starts_bottom(o) && h == 0) {
        None
    } else {
        let x = if starts_right(o) { w - 1 } else { 0 };
        let y = if starts_bottom(o) { h - 1 } else { 0 };
        Some(StackCursor { x, y, edge_x: x, edge_y: y })
    }
}

/// The row a child `lg` high starts at when it is stacked upwards from row `y`: directly
/// above the previous child, or ending on the bottom row for the first child of a column.
pub open spec fn rise(y: int, lg: int, h: int) -> Option<int> {
    if y == h - 1 {
        if lg == 0 { None } else { Some(y - (lg - 1)) }
    } else {
        Some(y - lg)
    }
}

/// Placing the next child (`len` columns, the highest `lg` high, `None` when it has no
/// columns) left to right in rows from the top.
pub open spec fn place_lr_tb(c: StackCursor, len: int, lg: Option<int>, w: int, h: int) -> Placement {
    if !fits(w + 1) { Placement::Panic }
    else if len > w + 1 { Placement::Stop }
    else if !fits(w - c.x) { Placement::Panic }
    else if len > w - c.x {
        if !fits(c.y + c.edge_y) { Placement::Panic }
        else if c.y + c.edge_y >= h { Placement::Stop }
        else if !fits(c.edge_y + 1) { Placement::Panic }
        else {
            let y = c.edge_y + 1;
            match lg {
                None => Placement::Panic,
                Some(g) => if !fits(h - y) { Placement::Panic }
                    else if g > h - y { Placement::Stop }
                    else { Placement::At(StackCursor { x: 0, y, ..c }) },
            }
        }
    } else {
        Placement::At(c)
    }
}

/// Placing the next child left to right in rows from the bottom.
pub open spec fn place_lr_bt(c: StackCursor, first: bool, len: int, lg: Option<int>, w: int, h: int) -> Placement {
    if !fits(w + 1) { Placement::Panic }
    else if len > w + 1 { Placement::Stop }
    else if !first && !fits(w - c.x) { Placement::Panic }
    else if first || len > w - c.x {
        match lg {
            None => Placement::Panic,
            Some(g) => if c.y < g { Placement::Stop } else {
                match rise(c.y, g, h) {
                    None => Placement::Panic,
                    Some(y) => Placement::At(StackCursor { x: 0, y, ..c }),
                }
            },
        }
    } else {
        Placement::At(c)
    }
}

/// Placing the next child right to left in rows from the top.
pub open spec fn place_rl_tb(c: StackCursor, len: int, lg: Option<int>, w: int, h: int) -> Placement {
    if !fits(w + 1) { Placement::Panic }
    else if len > w + 1 { Placement::Stop }
    else if len > c.x {
        if !fits(c.y + c.edge_y) { Placement::Panic }
        else if c.y + c.edge_y >= h { Placement::Stop }
        else if !fits(c.edge_y + 1) { Placement::Panic }
        else {
            let y = c.edge_y + 1;
            match lg {
                None => Placement::Panic,
                Some(g) => if !fits(h - y) { Placement::Panic }
                    else if g > h - y { Placement::Stop }
                    else if len > w - 1 { Placement::Panic }
                    else { Placement::At(StackCursor { x: w - 1 - len, y, ..c }) },
            }
        }
    } else {
        Placement::At(StackCursor { x: c.x - len, ..c })
    }
}

/// Placing the next child right to left in rows from the bottom.
pub open spec fn place_rl_bt(c: StackCursor, first: bool, len: int, lg: Option<int>, w: int, h: int) -> Placement {
    if !fits(w + 1) { Placement::Panic }
    else if len > w + 1 { Placement::Stop }
    else if first || len > c.x {
        match lg {
            None => Placement::Panic,
            Some(g) => if c.y < g { Placement::Stop } else {
                match rise(c.y, g, h) {
                    None => Placement::Panic,
                    Some(y) => if len > w - 1 { Placement::Panic }
                        else { Placement::At(StackCursor { x: w - 1 - len, y, ..c }) },
                }
            },
        }
    } else {
        Placement::At(StackCursor { x: c.x - len, ..c })
    }
}

/// Placing the next child top to bottom in columns from the left.
pub open spec fn place_tb_lr(c: StackCursor, len: int, lg: Option<int>, w: int, h: int) -> Placement {
    match lg {
        None => Placement::Panic,
        Some(g) => if !fits(h + 1) { Placement::Panic }
            else if g > h + 1 { Placement::Stop }
            else if !fits(h - c.y) { Placement::Panic }
            else if g > h - c.y {
                if !fits(c.x + c.edge_x) { Placement::Panic }
                else if c.x + c.edge_x >= w { Placement::Stop }
                else if !fits(c.edge_x + 1) { Placement::Panic }
                else {
                    let x = c.edge_x + 1;
                    if !fits(w - x) { Placement::Panic }
                    else if len > w - x { Placement::Stop }
                    else { Placement::At(StackCursor { x, y: 0, ..c }) }
                }
            } else {
                Placement::At(c)
            },
    }
}

/// Placing the next child top to bottom in columns from the right.
pub open spec fn place_tb_rl(c: StackCursor, first: bool, len: int, lg: Option<int>, w: int, h: int) -> Placement {
    match lg {
        None => Placement::Panic,
        Some(g) => if g > h { Placement::Stop }
            else if !first && !fits(h - c.y) { Placement::Panic }
            else if first || g > h - c.y {
                if len >= c.x { Placement::Stop } else { Placement::At(StackCursor { x: c.x - len, y: 0, ..c }) }
            } else {
                Placement::At(c)
            },
    }
}

/// Placing the next child bottom to top in columns from the left.
pub open spec fn place_bt_lr(c: StackCursor, len: int, lg: Option<int>, w: int, h: int) -> Placement {
    match lg {
        None => Placement::Panic,
        Some(g) => if !fits(c.y + 1) { Placement::Panic }
            else if g > c.y + 1 {
                if !fits(w - c.x) { Placement::Panic }
                else if len > w - c.x { Placement::Stop }
                else {
                    match rise(h - 1, g, h) {
                        None => Placement::Panic,
                        Some(y) => if y < 0 { Placement::Panic } else { Placement::At(StackCursor { x: len, y, ..c }) },
                    }
                }
            } else {
                match rise(c.y, g, h) {
                    None => Placement::Panic,
                    Some(y) => if y < 0 { Placement::Panic } else { Placement::At(StackCursor { y, ..c }) },
                }
            },
    }
}

/// Placing the next child bottom to top in columns from the right.
pub open spec fn place_bt_rl(c: StackCursor, first: bool, len: int, lg: Option<int>, w: int, h: int) -> Placement {
    match lg {
        None => Placement::Panic,
        Some(g) => if g > h { Placement::Stop }
            else if !first && !fits(c.y + 1) { Placement::Panic }
            else if first || g > c.y + 1 {
                if len >= c.x { Placement::Stop } else {
                    match rise(h - 1, g, h) {
                        None => Placement::Panic,
                        Some(y) => if y < 0 { Placement::Panic } else { Placement::At(StackCursor { x: c.x - len, y, ..c }) },
                    }
                }
            } else {
                match rise(c.y, g, h) {
                    None => Placement::Panic,
                    Some(y) => if y < 0 { Placement::Panic } else { Placement::At(StackCursor { y, ..c }) },
                }
            },
    }
}

/// Placing the next child in the given order.
pub open spec fn stack_place(o: LayoutOrientation, c: StackCursor, first: bool, len: int, lg: Option<int>,
    w: int, h: int) -> Placement {
    match o {
        LayoutOrientation::LeftRightTopBottom => place_lr_tb(c, len, lg, w, h),
        LayoutOrientation::LeftRightBottomTop => place_lr_bt(c, first, len, lg, w, h),
        LayoutOrientation::RightLeftTopBottom => place_rl_tb(c, len, lg, w, h),
        LayoutOrientation::RightLeftBottomTop => place_rl_bt(c, first, len, lg, w, h),
        LayoutOrientation::TopBottomLeftRight => place_tb_lr(c, len, lg, w, h),
        LayoutOrientation::TopBottomRightLeft => place_tb_rl(c, first, len, lg, w, h),
        LayoutOrientation::BottomTopLeftRight => place_bt_lr(c, len, lg, w, h),
        LayoutOrientation::BottomTopRightLeft => place_bt_rl(c, first, len, lg, w, h),
        _ => Placement::Panic,
    }
}

/// Where a child `len` columns wide and `g` rows high goes in each order, when it is placed.
/// In rows, it goes on in the current row next to the previous child when it fits there:
/// at the cursor going right, ending just before the cursor going left. When the row is full
/// it starts a new row at the order's starting edge: at column 0 going right, ending on the
/// last column (`w - 1`) going left; the new row lies below the lowest row written going
/// down, and above the current row going up (ending on the bottom row for the first row).
/// In columns, likewise: the child goes on in the current column when it fits, and a new
/// column starts at the top going down, or ending on the bottom row (or just above the
/// current position) going up. The edges written so far stay as they were.
pub proof fn lemma_stack_place(o: LayoutOrientation, c: StackCursor, first: bool, len: int, g: int,
    w: int, h: int)
    ensures
        match stack_place(o, c, first, len, Some(g), w, h) {
            Placement::At(p) => {
                &&& p.edge_x == c.edge_x
                &&& p.edge_y == c.edge_y
                &&& match o {
                    LayoutOrientation::LeftRightTopBottom => if len > w - c.x {
                        p.x == 0 && p.y == c.edge_y + 1 && p.y + g <= h
                    } else {
                        p.x == c.x && p.y == c.y
                    },
                    LayoutOrientation::LeftRightBottomTop => if first || len > w - c.x {
                        p.x == 0 && p.y + g == (if c.y == h - 1 { h } else { c.y })
                    } else {
                        p.x == c.x && p.y == c.y
                    },
                    LayoutOrientation::RightLeftTopBottom => if len > c.x {
                        p.x + len == w - 1 && p.y == c.edge_y + 1 && p.y + g <= h
                    } else {
                        p.x + len == c.x && p.y == c.y
                    },
                    LayoutOrientation::RightLeftBottomTop => if first || len > c.x {
                        p.x + len == w - 1 && p.y + g == (if c.y == h - 1 { h } else { c.y })
                    } else {
                        p.x + len == c.x && p.y == c.y
                    },
                    LayoutOrientation::TopBottomLeftRight => if g > h - c.y {
                        p.y == 0 && p.x == c.edge_x + 1 && p.x + len <= w
                    } else {
                        p.x == c.x && p.y == c.y
                    },
                    LayoutOrientation::TopBottomRightLeft => if first || g > h - c.y {
                        p.y == 0 && p.x + len == c.x
                    } else {
                        p.x == c.x && p.y == c.y
                    },
                    LayoutOrientation::BottomTopLeftRight => if g > c.y + 1 {
                        p.x == len && p.y + g == h
                    } else {
                        p.x == c.x && p.y + g == (if c.y == h - 1 { h } else { c.y })
                    },
                    LayoutOrientation::BottomTopRightLeft => if first || g > c.y + 1 {
                        p.x + len == c.x && p.y + g == h
                    } else {
                        p.x == c.x && p.y + g == (if c.y == h - 1 { h } else { c.y })
                    },
                    _ => false,
                }
            },
            _ => true,
        },
{
}

/// The number of a child's columns and rows that are written, from its position
/// (`px`, `py`): each order skips the cells past the layout on one or both axes (the
/// left-to-right, top-to-bottom-in-rows order keeps one row past the bottom).
pub open spec fn written_extent(o: LayoutOrientation, px: int, py: int, w: int, h: int, len: int, lg: int)
    -> (int, int) {
    match o {
        LayoutOrientation::LeftRightTopBottom | LayoutOrientation::RightLeftTopBottom
        | LayoutOrientation::RightLeftBottomTop => (len, h - py),
        LayoutOrientation::LeftRightBottomTop => (len, h + 1 - py),
        LayoutOrientation::TopBottomLeftRight => (w - px, lg),
        _ => (w - px, h - py),
    }
}

/// The part of a child's content within `cols` columns and `rows` rows.
pub open spec fn cropped(c: Seq<Seq<PixelView>>, cols: int, rows: int) -> Seq<Seq<PixelView>> {
    let k = if cols < 0 { 0 } else if cols > c.len() { c.len() as int } else { cols };
    let r = if rows < 0 { 0 } else { rows };
    c.take(k).map_values(|col: Seq<PixelView>| if r > col.len() { col } else { col.take(r) })
}

/// The first column of some content that holds a cell; -1 when none does.
pub open spec fn first_filled_column(c: Seq<Seq<PixelView>>) -> int
    decreases c.len(),
{
    if c.len() == 0 {
        -1
    } else if c[0].len() > 0 {
        0
    } else {
        let rest = first_filled_column(c.drop_first());
        if rest < 0 { -1 } else { rest + 1 }
    }
}

/// Writing a child placed at the cursor into the layout's content, and the edges
/// afterwards. `None` where a written cell lies outside the layout.
pub open spec fn stack_write(o: LayoutOrientation, g: Seq<Seq<PixelView>>, content: Seq<Seq<PixelView>>,
    c: StackCursor, w: int, h: int) -> Option<(Seq<Seq<PixelView>>, StackCursor)> {
    let (cols, rows) = written_extent(o, c.x, c.y, w, h, content.len() as int, max_height(content) as int);
    let cr = cropped(content, cols, rows);
    let last = last_filled_column(cr);
    let first = first_filled_column(cr);
    let mh = max_height(cr) as int;
    if (last >= 0 && c.x + last >= w) || (mh > 0 && c.y + mh - 1 >= h) {
        None
    } else {
        let edge_x = if tracks_largest_x(o) {
            if last >= 0 && c.x + last > c.edge_x { c.x + last } else { c.edge_x }
        } else {
            if first >= 0 && c.x + first < c.edge_x { c.x + first } else { c.edge_x }
        };
        let edge_y = if tracks_largest_y(o) {
            if mh > 0 && c.y + mh - 1 > c.edge_y { c.y + mh - 1 } else { c.edge_y }
        } else {
            if mh > 0 && c.y < c.edge_y { c.y } else { c.edge_y }
        };
        Some((overlaid(g, cr, c.x as nat, c.y as nat, w as nat, h as nat),
            StackCursor { edge_x, edge_y, ..c }))
    }
}

/// The cursor after a child was written: rows move right past it, columns move down past
/// it; the other orders moved before placing it.
pub open spec fn stack_advance(o: LayoutOrientation, c: StackCursor, len: int, lg: int) -> Option<StackCursor> {
    match o {
        LayoutOrientation::LeftRightTopBottom | LayoutOrientation::LeftRightBottomTop =>
            if fits(c.x + len) { Some(StackCursor { x: c.x + len, ..c }) } else { None },
        LayoutOrientation::TopBottomLeftRight | LayoutOrientation::TopBottomRightLeft =>
            if fits(c.y + lg) { Some(StackCursor { y: c.y + lg, ..c }) } else { None },
        _ => Some(c),
    }
}

/// After a child is written, orders that fill rows left to right move on past its columns,
/// orders that fill columns downwards move on past its rows, and the others stay where the
/// child was placed; the edges written so far are kept.
pub proof fn lemma_stack_advance(o: LayoutOrientation, c: StackCursor, len: int, lg: int)
    requires
        len >= 0,
        lg >= 0,
    ensures
        match stack_advance(o, c, len, lg) {
            Some(n) => {
                &&& n.edge_x == c.edge_x && n.edge_y == c.edge_y
                &&& match o {
                    LayoutOrientation::LeftRightTopBottom | LayoutOrientation::LeftRightBottomTop =>
                        n.x == c.x + len && n.y == c.y,
                    LayoutOrientation::TopBottomLeftRight | LayoutOrientation::TopBottomRightLeft =>
                        n.y == c.y + lg && n.x == c.x,
                    _ => n == c,
                }
            },
            None => !fits(c.x + len) || !fits(c.y + lg),
        },
{
}

/// The height of a child's highest column, `None` when it has no columns.
pub open spec fn highest(content: Seq<Seq<PixelView>>) -> Option<int> {
    if content.len() == 0 { None } else { Some(max_height(content) as int) }
}

/// Stacking the children from the `i`-th on: the content written, the cursor, and the
/// positions of the children placed. `None` where the layout cannot be stacked.
pub open spec fn stack_steps(o: LayoutOrientation, contents: Seq<Seq<Seq<PixelView>>>, i: int,
    g: Seq<Seq<PixelView>>, c: StackCursor, positions: Seq<(int, int)>, w: int, h: int)
    -> Option<(Seq<Seq<PixelView>>, StackCursor, Seq<(int, int)>)>
    decreases contents.len() - i,
{
    if i < 0 || i >= contents.len() {
        Some((g, c, positions))
    } else {
        let content = contents[i];
        match stack_place(o, c, i == 0, content.len() as int, highest(content), w, h) {
            Placement::Panic => None,
            Placement::Stop => Some((g, c, positions)),
            Placement::At(placed) => match stack_write(o, g, content, placed, w, h) {
                None => None,
                Some((g2, written)) => match stack_advance(o, written, content.len() as int,
                    max_height(content) as int) {
                    None => None,
                    Some(next) => stack_steps(o, contents, i + 1, g2, next, positions.push((placed.x, placed.y)), w, h),
                },
            },
        }
    }
}

/// A layout's stacked content cut to what its children wrote, on the axes where it follows
/// its content: from the start edge to the furthest column or row written. `None` where
/// that lies outside the content.
pub open spec fn stack_trim(o: LayoutOrientation, g: Seq<Seq<PixelView>>, c: StackCursor, auto_scale_width: bool,
    auto_scale_height: bool, h: int) -> Option<Seq<Seq<PixelView>>> {
    let across = if !auto_scale_width { Some(g) }
        else if tracks_largest_x(o) { if c.edge_x < 0 || c.edge_x >= g.len() { None } else { Some(g.take(c.edge_x + 1)) } }
        else { if c.edge_x < 0 || c.edge_x > g.len() { None } else { Some(g.skip(c.edge_x)) } };
    match across {
        None => None,
        Some(g1) => if !auto_scale_height || g1.len() == 0 { Some(g1) }
            else if tracks_largest_y(o) {
                if c.edge_y < 0 || c.edge_y >= h { None }
                else { Some(g1.map_values(|col: Seq<PixelView>| col.take(c.edge_y + 1))) }
            } else {
                if c.edge_y < 0 || c.edge_y > h { None }
                else { Some(g1.map_values(|col: Seq<PixelView>| col.skip(c.edge_y))) }
            },
    }
}

/// The whole stack layout: the background of filler, the children stacked in order, the
/// content cut where the layout follows its content; and the positions of the children
/// placed (the others are not drawn). `None` where the layout cannot be stacked.
pub open spec fn stack_layout(o: LayoutOrientation, contents: Seq<Seq<Seq<PixelView>>>, w: int, h: int,
    filler: PixelView, auto_scale_width: bool, auto_scale_height: bool)
    -> Option<(Seq<Seq<PixelView>>, Seq<(int, int)>)> {
    match stack_start(o, w, h) {
        None => None,
        Some(c) => match stack_steps(o, contents, 0, Seq::new(w as nat, |_i: int| repeat(filler, h as nat)),
            c, Seq::empty(), w, h) {
            None => None,
            Some((g, end, positions)) => match stack_trim(o, g, end, auto_scale_width, auto_scale_height, h) {
                None => None,
                Some(t) => Some((t, positions)),
            },
        },
    }
}


/// The stacking cursor as the layout code keeps it.
#[derive(Clone, Copy, Debug, PartialEq, Eq, Structural)]
pub struct Cursor {
    pub x: usize,
    pub y: usize,
    pub edge_x: usize,
    pub edge_y: usize,
}

impl Cursor {
    /// The cursor as numbers.
    pub open spec fn spec_cursor(self) -> StackCursor {
        StackCursor { x: self.x as int, y: self.y as int, edge_x: self.edge_x as int, edge_y: self.edge_y as int }
    }
}

/// The stacking cursor's value after placing a child (see [`stack_place`]): `None` when
/// stacking stops.
pub open spec fn placed_as(p: Placement, r: Option<Cursor>) -> bool {
    match p {
        Placement::Panic => false,
        Placement::Stop => r is None,
        Placement::At(c) => r matches Some(rc) && rc.spec_cursor() == c,
    }
}

fn place_lr_tb_at(c: Cursor, len: usize, lg: Option<usize>, w: usize, h: usize) -> (r: Option<Cursor>)
    requires
        !(place_lr_tb(c.spec_cursor(), len as int, match lg { Some(g) => Some(g as int), None => None },
            w as int, h as int) is Panic),
    ensures
        placed_as(place_lr_tb(c.spec_cursor(), len as int, match lg { Some(g) => Some(g as int), None => None },
            w as int, h as int), r),
{
    if len > w + 1 {
        return None;
    }
    if len > w - c.x {
        if c.y + c.edge_y >= h {
            return None;
        }
        let y = c.edge_y + 1;
        let g = match lg { Some(g) => g, None => { return None; } };
        if g > h - y {
            return None;
        }
        Some(Cursor { x: 0, y, ..c })
    } else {
        Some(c)
    }
}

fn place_lr_bt_at(c: Cursor, first: bool, len: usize, lg: Option<usize>, w: usize, h: usize) -> (r: Option<Cursor>)
    requires
        h >= 1,
        !(place_lr_bt(c.spec_cursor(), first, len as int, match lg { Some(g) => Some(g as int), None => None },
            w as int, h as int) is Panic),
    ensures
        placed_as(place_lr_bt(c.spec_cursor(), first, len as int, match lg { Some(g) => Some(g as int), None => None },
            w as int, h as int), r),
{
    if len > w + 1 {
        return None;
    }
    if first || len > w - c.x {
        let g = match lg { Some(g) => g, None => { return None; } };
        if c.y < g {
            return None;
        }
        let y = if c.y == h - 1 { c.y - (g - 1) } else { c.y - g };
        Some(Cursor { x: 0, y, ..c })
    } else {
        Some(c)
    }
}

fn place_rl_tb_at(c: Cursor, len: usize, lg: Option<usize>, w: usize, h: usize) -> (r: Option<Cursor>)
    requires
        !(place_rl_tb(c.spec_cursor(), len as int, match lg { Some(g) => Some(g as int), None => None },
            w as int, h as int) is Panic),
    ensures
        placed_as(place_rl_tb(c.spec_cursor(), len as int, match lg { Some(g) => Some(g as int), None => None },
            w as int, h as int), r),
{
    if len > w + 1 {
        return None;
    }
    if len > c.x {
        if c.y + c.edge_y >= h {
            return None;
        }
        let y = c.edge_y + 1;
        let g = match lg { Some(g) => g, None => { return None; } };
        if g > h - y {
            return None;
        }
        Some(Cursor { x: w - 1 - len, y, ..c })
    } else {
        Some(Cursor { x: c.x - len, ..c })
    }
}

fn place_rl_bt_at(c: Cursor, first: bool, len: usize, lg: Option<usize>, w: usize, h: usize) -> (r: Option<Cursor>)
    requires
        h >= 1,
        !(place_rl_bt(c.spec_cursor(), first, len as int, match lg { Some(g) => Some(g as int), None => None },
            w as int, h as int) is Panic),
    ensures
        placed_as(place_rl_bt(c.spec_cursor(), first, len as int, match lg { Some(g) => Some(g as int), None => None },
            w as int, h as int), r),
{
    if len > w + 1 {
        return None;
    }
    if first || len > c.x {
        let g = match lg { Some(g) => g, None => { return None; } };
        if c.y < g {
            return None;
        }
        let y = if c.y == h - 1 { c.y - (g - 1) } else { c.y - g };
        Some(Cursor { x: w - 1 - len, y, ..c })
    } else {
        Some(Cursor { x: c.x - len, ..c })
    }
}

fn place_tb_lr_at(c: Cursor, len: usize, lg: Option<usize>, w: usize, h: usize) -> (r: Option<Cursor>)
    requires
        !(place_tb_lr(c.spec_cursor(), len as int, match lg { Some(g) => Some(g as int), None => None },
            w as int, h as int) is Panic),
    ensures
        placed_as(place_tb_lr(c.spec_cursor(), len as int, match lg { Some(g) => Some(g as int), None => None },
            w as int, h as int), r),
{
    let g = match lg { Some(g) => g, None => { return None; } };
    if g > h + 1 {
        return None;
    }
    if g > h - c.y {
        if c.x + c.edge_x >= w {
            return None;
        }
        let x = c.edge_x + 1;
        if len > w - x {
            return None;
        }
        Some(Cursor { x, y: 0, ..c })
    } else {
        Some(c)
    }
}

fn place_tb_rl_at(c: Cursor, first: bool, len: usize, lg: Option<usize>, w: usize, h: usize) -> (r: Option<Cursor>)
    requires
        !(place_tb_rl(c.spec_cursor(), first, len as int, match lg { Some(g) => Some(g as int), None => None },
            w as int, h as int) is Panic),
    ensures
        placed_as(place_tb_rl(c.spec_cursor(), first, len as int, match lg { Some(g) => Some(g as int), None => None },
            w as int, h as int), r),
{
    let g = match lg { Some(g) => g, None => { return None; } };
    if g > h {
        return None;
    }
    if first || g > h - c.y {
        if len >= c.x {
            return None;
        }
        Some(Cursor { x: c.x - len, y: 0, ..c })
    } else {
        Some(c)
    }
}

fn place_bt_lr_at(c: Cursor, len: usize, lg: Option<usize>, w: usize, h: usize) -> (r: Option<Cursor>)
    requires
        h >= 1,
        !(place_bt_lr(c.spec_cursor(), len as int, match lg { Some(g) => Some(g as int), None => None },
            w as int, h as int) is Panic),
    ensures
        placed_as(place_bt_lr(c.spec_cursor(), len as int, match lg { Some(g) => Some(g as int), None => None },
            w as int, h as int), r),
{
    let g = match lg { Some(g) => g, None => { return None; } };
    if g > c.y + 1 {
        if len > w - c.x {
            return None;
        }
        let y = (h - 1) - (g - 1);
        Some(Cursor { x: len, y, ..c })
    } else {
        let y = if c.y == h - 1 { c.y - (g - 1) } else { c.y - g };
        Some(Cursor { y, ..c })
    }
}

fn place_bt_rl_at(c: Cursor, first: bool, len: usize, lg: Option<usize>, w: usize, h: usize) -> (r: Option<Cursor>)
    requires
        h >= 1,
        !(place_bt_rl(c.spec_cursor(), first, len as int, match lg { Some(g) => Some(g as int), None => None },
            w as int, h as int) is Panic),
    ensures
        placed_as(place_bt_rl(c.spec_cursor(), first, len as int, match lg { Some(g) => Some(g as int), None => None },
            w as int, h as int), r),
{
    let g = match lg { Some(g) => g, None => { return None; } };
    if g > h {
        return None;
    }
    if first || g > c.y + 1 {
        if len >= c.x {
            return None;
        }
        let y = (h - 1) - (g - 1);
        Some(Cursor { x: c.x - len, y, ..c })
    } else {
        let y = if c.y == h - 1 { c.y - (g - 1) } else { c.y - g };
        Some(Cursor { y, ..c })
    }
}


/// Whether an order fills rows (else columns).
pub open spec fn fills_rows(o: LayoutOrientation) -> bool {
    match o {
        LayoutOrientation::LeftRightTopBottom | LayoutOrientation::LeftRightBottomTop
        | LayoutOrientation::RightLeftTopBottom | LayoutOrientation::RightLeftBottomTop => true,
        _ => false,
    }
}

/// Whether an order is one of the eight stacking orders.
pub open spec fn is_stack_order(o: LayoutOrientation) -> bool {
    o != LayoutOrientation::Horizontal && o != LayoutOrientation::Vertical
}

/// Where the cursor stays between children: on the rows of the layout for a row order, on
/// its columns for a column order, and within the layout on the axes the order starts from
/// the far edge.
pub open spec fn cursor_ok(o: LayoutOrientation, c: StackCursor, w: int, h: int) -> bool {
    &&& 0 <= c.x
    &&& 0 <= c.y
    &&& fills_rows(o) ==> c.y <= h
    &&& !fills_rows(o) ==> c.x <= w
    &&& starts_right(o) ==> c.x <= w
    &&& starts_bottom(o) ==> c.y <= h
}

/// A child is placed within the layout, and the edges stay as they were.
proof fn lemma_placed_within(o: LayoutOrientation, c: StackCursor, first: bool, len: int, lg: Option<int>,
    w: int, h: int)
    requires
        is_stack_order(o),
        w >= 0,
        h >= 0,
        cursor_ok(o, c, w, h),
        !(starts_bottom(o)) || h >= 1,
        !(starts_right(o)) || w >= 1,
        len >= 0,
        lg matches Some(g) ==> g >= 0,
    ensures
        match stack_place(o, c, first, len, lg, w, h) {
            Placement::At(p) => 0 <= p.x && p.x <= w && 0 <= p.y && p.y <= h && p.edge_x == c.edge_x
                && p.edge_y == c.edge_y,
            _ => true,
        },
{
    match o {
        LayoutOrientation::LeftRightTopBottom => {},
        LayoutOrientation::LeftRightBottomTop => {},
        LayoutOrientation::RightLeftTopBottom => {},
        LayoutOrientation::RightLeftBottomTop => {},
        LayoutOrientation::TopBottomLeftRight => {},
        LayoutOrientation::TopBottomRightLeft => {},
        LayoutOrientation::BottomTopLeftRight => {},
        LayoutOrientation::BottomTopRightLeft => {},
        _ => {},
    }
}

/// The cursor to use for the first child.
fn start_cursor(o: LayoutOrientation, w: usize, h: usize) -> (r: Cursor)
    requires
        stack_start(o, w as int, h as int) is Some,
    ensures
        stack_start(o, w as int, h as int) == Some(r.spec_cursor()),
{
    let right = match o {
        LayoutOrientation::LeftRightTopBottom | LayoutOrientation::LeftRightBottomTop
        | LayoutOrientation::TopBottomLeftRight | LayoutOrientation::BottomTopLeftRight => false,
        _ => true,
    };
    let bottom = match o {
        LayoutOrientation::LeftRightTopBottom | LayoutOrientation::RightLeftTopBottom
        | LayoutOrientation::TopBottomLeftRight | LayoutOrientation::TopBottomRightLeft => false,
        _ => true,
    };
    let x = if right { w - 1 } else { 0 };
    let y = if bottom { h - 1 } else { 0 };
    Cursor { x, y, edge_x: x, edge_y: y }
}

/// Place the next child in the given order (see [`stack_place`]).
fn place_child(o: LayoutOrientation, c: Cursor, first: bool, content: &PixelMap, w: usize, h: usize)
    -> (r: Option<Cursor>)
    requires
        is_stack_order(o),
        !(starts_bottom(o)) || h >= 1,
        !(stack_place(o, c.spec_cursor(), first, content@.len() as int, highest(grid(content)), w as int,
            h as int) is Panic),
    ensures
        placed_as(stack_place(o, c.spec_cursor(), first, content@.len() as int, highest(grid(content)),
            w as int, h as int), r),
{
    let len = content.len();
    let lg = if len == 0 { None } else { Some(largest_height(content)) };
    assert(grid(content).len() == content@.len());
    assert((match lg { Some(g) => Some(g as int), None => None }) == highest(grid(content)));
    match o {
        LayoutOrientation::LeftRightTopBottom => place_lr_tb_at(c, len, lg, w, h),
        LayoutOrientation::LeftRightBottomTop => place_lr_bt_at(c, first, len, lg, w, h),
        LayoutOrientation::RightLeftTopBottom => place_rl_tb_at(c, len, lg, w, h),
        LayoutOrientation::RightLeftBottomTop => place_rl_bt_at(c, first, len, lg, w, h),
        LayoutOrientation::TopBottomLeftRight => place_tb_lr_at(c, len, lg, w, h),
        LayoutOrientation::TopBottomRightLeft => place_tb_rl_at(c, first, len, lg, w, h),
        LayoutOrientation::BottomTopLeftRight => place_bt_lr_at(c, len, lg, w, h),
        _ => place_bt_rl_at(c, first, len, lg, w, h),
    }
}

/// The part of some content within `cols` columns and `rows` rows (see [`cropped`]).
fn crop_content(content: &PixelMap, cols: usize, rows: usize) -> (r: PixelMap)
    ensures
        grid(&r) == cropped(grid(content), cols as int, rows as int),
{
    let k = if cols > content.len() { content.len() } else { cols };
    let ghost goal = cropped(grid(content), cols as int, rows as int);
    let mut result: PixelMap = Vec::new();
    let mut i: usize = 0;
    while i < k
        invariant
            i <= k,
            k <= content@.len(),
            k == (if cols > content@.len() { content@.len() as int } else { cols as int }),
            goal == cropped(grid(content), cols as int, rows as int),
            goal.len() == k,
            grid(&result) == goal.take(i as int),
        decreases k - i,
    {
        let n = if rows > content[i].len() { content[i].len() } else { rows };
        let mut col: Vec<Pixel> = Vec::new();
        let mut j: usize = 0;
        while j < n
            invariant
                j <= n,
                i < content@.len(),
                n <= content@[i as int]@.len(),
                col@ == content@[i as int]@.take(j as int),
            decreases n - j,
        {
            col.push(content[i][j].duplicate());
            j = j + 1;
            assert(col@ =~= content@[i as int]@.take(j as int));
        }
        proof {
            assert(grid(content)[i as int] == column(content@[i as int]@));
            assert(column(col@) =~= goal[i as int]);
        }
        let ghost old_res = result@;
        let ghost cv = col;
        result.push(col);
        proof { lemma_grid_push(old_res, cv); }
        i = i + 1;
        assert(grid(&result) =~= goal.take(i as int));
    }
    assert(goal.take(k as int) =~= goal);
    result
}

proof fn lemma_first_filled(c: Seq<Seq<PixelView>>, i: int)
    requires
        0 <= i <= c.len(),
        forall|k: int| 0 <= k < i ==> #[trigger] c[k].len() == 0,
    ensures
        first_filled_column(c) == (if first_filled_column(c.skip(i)) < 0 { -1 } else { first_filled_column(c.skip(i)) + i }),
    decreases i,
{
    if i == 0 {
        assert(c.skip(0) =~= c);
    } else {
        assert forall|k: int| 0 <= k < i - 1 implies #[trigger] c.drop_first()[k].len() == 0 by {
            assert(c.drop_first()[k] == c[k + 1]);
        }
        lemma_first_filled(c.drop_first(), i - 1);
        assert(c.drop_first().skip(i - 1) =~= c.skip(i));
    }
}

/// The first column of some content that holds a cell.
fn first_filled(c: &PixelMap) -> (r: Option<usize>)
    ensures
        match r {
            Some(i) => first_filled_column(grid(c)) == i as int && i < c@.len(),
            None => first_filled_column(grid(c)) == -1,
        },
{
    let mut i: usize = 0;
    while i < c.len()
        invariant
            i <= c@.len(),
            forall|k: int| 0 <= k < i ==> #[trigger] grid(c)[k].len() == 0,
        decreases c@.len() - i,
    {
        assert(grid(c)[i as int] == column(c@[i as int]@));
        if c[i].len() > 0 {
            proof {
                lemma_first_filled(grid(c), i as int);
                assert(grid(c).skip(i as int)[0] == grid(c)[i as int]);
            }
            return Some(i);
        }
        i = i + 1;
    }
    proof {
        lemma_first_filled(grid(c), i as int);
        assert(grid(c).skip(i as int).len() == 0);
    }
    None
}

/// Write a placed child into the layout's content (see [`stack_write`]).
fn write_child(o: LayoutOrientation, g: &PixelMap, content: &PixelMap, c: Cursor, w: usize, h: usize)
    -> (r: (PixelMap, Cursor))
    requires
        is_stack_order(o),
        c.x <= w <= isize::MAX,
        c.y <= h <= isize::MAX,
        content@.len() <= isize::MAX,
        max_height(grid(content)) <= isize::MAX,
        stack_write(o, grid(g), grid(content), c.spec_cursor(), w as int, h as int) is Some,
    ensures
        stack_write(o, grid(g), grid(content), c.spec_cursor(), w as int, h as int)
            == Some((grid(&r.0), r.1.spec_cursor())),
{
    let len = content.len();
    assert(grid(content).len() == len);
    let below = if c.y >= h { 0 } else { h - c.y };
    let across = if c.x >= w { 0 } else { w - c.x };
    let (cols, rows): (usize, usize) = match o {
        LayoutOrientation::LeftRightTopBottom | LayoutOrientation::RightLeftTopBottom
        | LayoutOrientation::RightLeftBottomTop => (len, below),
        LayoutOrientation::LeftRightBottomTop => (len, if c.y > h { 0 } else { h + 1 - c.y }),
        LayoutOrientation::TopBottomLeftRight => (across, largest_height(content)),
        _ => (across, below),
    };
    let ghost ext = written_extent(o, c.x as int, c.y as int, w as int, h as int, len as int,
        max_height(grid(content)) as int);
    assert(cropped(grid(content), cols as int, rows as int) =~= cropped(grid(content), ext.0, ext.1));
    let cr = crop_content(content, cols, rows);
    let last = filled_columns(&cr);
    proof { crate::float_mode::lemma_last_filled_bound(grid(&cr)); }
    let first = first_filled(&cr);
    let mh = largest_height(&cr);
    assert(grid(&cr).len() <= len);
    let largest_x = match o {
        LayoutOrientation::LeftRightTopBottom | LayoutOrientation::LeftRightBottomTop
        | LayoutOrientation::TopBottomLeftRight | LayoutOrientation::BottomTopLeftRight => true,
        _ => false,
    };
    let largest_y = match o {
        LayoutOrientation::LeftRightTopBottom | LayoutOrientation::RightLeftTopBottom
        | LayoutOrientation::TopBottomLeftRight | LayoutOrientation::TopBottomRightLeft => true,
        _ => false,
    };
    let edge_x = if largest_x {
        if last > 0 && c.x + (last - 1) > c.edge_x { c.x + (last - 1) } else { c.edge_x }
    } else {
        match first {
            Some(f) => if c.x + f < c.edge_x { c.x + f } else { c.edge_x },
            None => c.edge_x,
        }
    };
    proof { lemma_crop_height_bound(grid(content), ext.0, ext.1); }
    let edge_y = if largest_y {
        if mh > 0 && c.y + mh - 1 > c.edge_y { c.y + mh - 1 } else { c.edge_y }
    } else {
        if mh > 0 && c.y < c.edge_y { c.y } else { c.edge_y }
    };
    let written = overlay(g, &cr, c.x, c.y, w, h);
    (written, Cursor { edge_x, edge_y, ..c })
}

proof fn lemma_crop_height_bound(c: Seq<Seq<PixelView>>, cols: int, rows: int)
    ensures
        max_height(cropped(c, cols, rows)) <= max_height(c),
{
    let cr = cropped(c, cols, rows);
    crate::layout::lemma_max_height(c);
    lemma_max_height_at_most(cr, max_height(c));
}

proof fn lemma_max_height_at_most(c: Seq<Seq<PixelView>>, bound: nat)
    requires
        forall|i: int| 0 <= i < c.len() ==> #[trigger] c[i].len() <= bound,
    ensures
        max_height(c) <= bound,
    decreases c.len(),
{
    if c.len() > 0 {
        assert forall|i: int| 0 <= i < c.drop_last().len() implies #[trigger] c.drop_last()[i].len() <= bound by {
            assert(c.drop_last()[i] == c[i]);
        }
        lemma_max_height_at_most(c.drop_last(), bound);
    }
}

/// Move the cursor past a written child (see [`stack_advance`]).
fn advance_cursor(o: LayoutOrientation, c: Cursor, content: &PixelMap) -> (r: Cursor)
    requires
        stack_advance(o, c.spec_cursor(), content@.len() as int, max_height(grid(content)) as int) is Some,
    ensures
        stack_advance(o, c.spec_cursor(), content@.len() as int, max_height(grid(content)) as int)
            == Some(r.spec_cursor()),
{
    match o {
        LayoutOrientation::LeftRightTopBottom | LayoutOrientation::LeftRightBottomTop =>
            Cursor { x: c.x + content.len(), ..c },
        LayoutOrientation::TopBottomLeftRight | LayoutOrientation::TopBottomRightLeft =>
            Cursor { y: c.y + largest_height(content), ..c },
        _ => c,
    }
}

/// Cut stacked content where the layout follows its content (see [`stack_trim`]).
fn trim_stack(o: LayoutOrientation, g: &PixelMap, c: Cursor, auto_scale_width: bool, auto_scale_height: bool,
    h: usize) -> (r: PixelMap)
    requires
        stack_trim(o, grid(g), c.spec_cursor(), auto_scale_width, auto_scale_height, h as int) is Some,
        forall|i: int| 0 <= i < g@.len() ==> (#[trigger] g@[i])@.len() == h,
    ensures
        stack_trim(o, grid(g), c.spec_cursor(), auto_scale_width, auto_scale_height, h as int) == Some(grid(&r)),
{
    let largest_x = match o {
        LayoutOrientation::LeftRightTopBottom | LayoutOrientation::LeftRightBottomTop
        | LayoutOrientation::TopBottomLeftRight | LayoutOrientation::BottomTopLeftRight => true,
        _ => false,
    };
    let largest_y = match o {
        LayoutOrientation::LeftRightTopBottom | LayoutOrientation::RightLeftTopBottom
        | LayoutOrientation::TopBottomLeftRight | LayoutOrientation::TopBottomRightLeft => true,
        _ => false,
    };
    assert(largest_x == tracks_largest_x(o));
    assert(largest_y == tracks_largest_y(o));
    let glen = g.len();
    assert(grid(g).len() == g@.len());
    proof {
        if auto_scale_width && largest_x {
            assert(c.edge_x < g@.len());
        }
    }
    let (from, to) = if !auto_scale_width { (0, glen) }
        else if largest_x { (0, c.edge_x + 1) } else { (c.edge_x, glen) };
    let (a, b) = if !auto_scale_height || from == to { (0, h) }
        else if largest_y { (0, c.edge_y + 1) } else { (c.edge_y, h) };
    let ghost goal = Seq::new((to - from) as nat, |k: int| grid(g)[from + k].subrange(a as int, b as int));
    proof {
        let g1 = grid(g).subrange(from as int, to as int);
        assert(g1 =~= (if !auto_scale_width { grid(g) } else if largest_x { grid(g).take(c.edge_x + 1) }
            else { grid(g).skip(c.edge_x as int) }));
        assert forall|k: int| 0 <= k < grid(g).len() implies #[trigger] grid(g)[k].len() == h by {
            assert(grid(g)[k] == column(g@[k]@));
        }
        let expected = stack_trim(o, grid(g), c.spec_cursor(), auto_scale_width, auto_scale_height, h as int)->0;
        assert(g1.len() == goal.len());
        if auto_scale_height && g1.len() > 0 {
            if largest_y {
                assert(c.edge_y < h);
            } else {
                assert(c.edge_y <= h);
            }
        }
        assert forall|k: int| 0 <= k < goal.len() implies #[trigger] expected[k] == goal[k] by {
            assert(g1[k] == grid(g)[from + k]);
            assert(grid(g)[from + k].len() == h);
            if !auto_scale_height || g1.len() == 0 {
                assert(grid(g)[from + k].subrange(0, h as int) =~= grid(g)[from + k]);
            } else if largest_y {
                assert(grid(g)[from + k].take(c.edge_y + 1) =~= grid(g)[from + k].subrange(a as int, b as int));
            } else {
                assert(grid(g)[from + k].skip(c.edge_y as int) =~= grid(g)[from + k].subrange(a as int, b as int));
            }
        }
        assert(expected =~= goal);
    }
    let mut result: PixelMap = Vec::new();
    let mut i: usize = from;
    while i < to
        invariant
            from <= i <= to,
            to <= g@.len(),
            a <= b <= h,
            forall|k: int| 0 <= k < g@.len() ==> (#[trigger] g@[k])@.len() == h,
            goal == Seq::new((to - from) as nat, |k: int| grid(g)[from + k].subrange(a as int, b as int)),
            grid(&result) == goal.take(i - from),
        decreases to - i,
    {
        let mut col: Vec<Pixel> = Vec::new();
        let mut j: usize = a;
        while j < b
            invariant
                a <= j <= b,
                b <= h,
                i < g@.len(),
                g@[i as int]@.len() == h,
                col@ == g@[i as int]@.subrange(a as int, j as int),
            decreases b - j,
        {
            col.push(g[i][j].duplicate());
            j = j + 1;
            assert(col@ =~= g@[i as int]@.subrange(a as int, j as int));
        }
        proof {
            assert(grid(g)[i as int] == column(g@[i as int]@));
            assert(column(col@) =~= goal[i - from]);
        }
        let ghost old_res = result@;
        let ghost cv = col;
        result.push(col);
        proof { lemma_grid_push(old_res, cv); }
        i = i + 1;
        assert(grid(&result) =~= goal.take(i - from));
    }
    assert(goal.take(to - from) =~= goal);
    result
}

/// The size of every pixel map in a list fits in half a `usize`.
pub open spec fn within_machine_limits(cs: Seq<PixelMap>) -> bool {
    forall|i: int| 0 <= i < cs.len() ==> (#[trigger] cs[i])@.len() <= isize::MAX
        && max_height(grid(&cs[i])) <= isize::MAX
}

/// Stack the children's contents in a layout of `width` by `height` cells in the given order
/// over a background of filler (the filler symbol in the filler colors when it fills, else
/// spaces), and cut the result to what the children wrote where the layout follows its
/// content (see [`stack_layout`]). Returns the content and the positions of the children
/// that were placed, in order, each within the layout; children after the first that does
/// not fit are not drawn.
pub fn get_stack_mode_contents(orientation: LayoutOrientation, content_list: &Vec<PixelMap>, width: usize,
    height: usize, colors: &ColorConfig, fill: bool, filler_symbol: &String, auto_scale_width: bool,
    auto_scale_height: bool) -> (r: (PixelMap, Vec<Coordinates>))
    requires
        is_stack_order(orientation),
        width <= isize::MAX,
        height <= isize::MAX,
        within_machine_limits(content_list@),
        stack_layout(orientation, content_list@.map_values(|m: PixelMap| grid(&m)), width as int, height as int,
            float_filler(fill, filler_symbol@, *colors), auto_scale_width, auto_scale_height) is Some,
    ensures
        ({
            let (g, positions) = stack_layout(orientation, content_list@.map_values(|m: PixelMap| grid(&m)),
                width as int, height as int, float_filler(fill, filler_symbol@, *colors), auto_scale_width,
                auto_scale_height)->0;
            &&& grid(&r.0) == g
            &&& r.1@.len() == positions.len()
            &&& forall|i: int| 0 <= i < positions.len() ==> (#[trigger] r.1@[i]).x == positions[i].0
                && r.1@[i].y == positions[i].1
        }),
        forall|i: int| 0 <= i < r.1@.len() ==> (#[trigger] r.1@[i]).x <= width && r.1@[i].y <= height,
{
    let ghost cs = content_list@.map_values(|m: PixelMap| grid(&m));
    let ghost w = width as int;
    let ghost h = height as int;
    let ghost f = float_filler(fill, filler_symbol@, *colors);
    let start = start_cursor(orientation, width, height);
    let background = float_background(Vec::new(), width, height, fill, filler_symbol, colors);
    assert(grid(&background) =~= Seq::new(width as nat, |_i: int| repeat(f, height as nat)));
    let ghost whole = stack_steps(orientation, cs, 0, grid(&background), start.spec_cursor(), Seq::empty(), w, h);
    assert forall|k: int| 0 <= k < background@.len() implies (#[trigger] background@[k])@.len() == height by {
        assert(grid(&background)[k] == column(background@[k]@));
    }
    assert(Seq::<Coordinates>::empty().map_values(|p: Coordinates| (p.x as int, p.y as int))
        =~= Seq::<(int, int)>::empty());
    let mut g = background;
    let mut cur = start;
    let mut positions: Vec<Coordinates> = Vec::new();
    let mut i: usize = 0;
    while i < content_list.len()
        invariant
            i <= content_list@.len(),
            cs == content_list@.map_values(|m: PixelMap| grid(&m)),
            w == width as int,
            h == height as int,
            is_stack_order(orientation),
            width <= isize::MAX,
            height <= isize::MAX,
            within_machine_limits(content_list@),
            !(starts_bottom(orientation)) || height >= 1,
            !(starts_right(orientation)) || width >= 1,
            cursor_ok(orientation, cur.spec_cursor(), w, h),
            forall|k: int| 0 <= k < g@.len() ==> (#[trigger] g@[k])@.len() == height,
            g@.len() == width,
            whole is Some,
            forall|k: int| 0 <= k < positions@.len() ==> (#[trigger] positions@[k]).x <= width
                && positions@[k].y <= height,
            whole == stack_steps(orientation, cs, i as int, grid(&g), cur.spec_cursor(),
                positions@.map_values(|p: Coordinates| (p.x as int, p.y as int)), w, h),
        ensures
            whole == Some((grid(&g), cur.spec_cursor(),
                positions@.map_values(|p: Coordinates| (p.x as int, p.y as int)))),
        decreases content_list@.len() - i,
    {
        let content = &content_list[i];
        assert(cs[i as int] == grid(content));
        assert(grid(content).len() == content@.len());
        let ghost pv = positions@.map_values(|p: Coordinates| (p.x as int, p.y as int));
        proof {
            lemma_placed_within(orientation, cur.spec_cursor(), i == 0, content@.len() as int,
                highest(grid(content)), w, h);
        }
        assert(cs[i as int].len() == content@.len());
        let placed = place_child(orientation, cur, i == 0, content, width, height);
        match placed {
            None => {
                assert(stack_steps(orientation, cs, i as int, grid(&g), cur.spec_cursor(), pv, w, h)
                    == Some((grid(&g), cur.spec_cursor(), pv)));
                break;
            },
            Some(p) => {
                let (written, after) = write_child(orientation, &g, content, p, width, height);
                proof {
                    assert(grid(&written).len() == width);
                    assert forall|k: int| 0 <= k < written@.len() implies (#[trigger] written@[k])@.len() == height by {
                        assert(grid(&written)[k] == column(written@[k]@));
                        assert(grid(&g)[k] == column(g@[k]@));
                    }
                }
                let next = advance_cursor(orientation, after, content);
                g = written;
                cur = next;
                positions.push(Coordinates::new(p.x, p.y));
                assert(positions@.map_values(|q: Coordinates| (q.x as int, q.y as int)) =~= pv.push((p.x as int, p.y as int)));
                i = i + 1;
            },
        }
    }
    let trimmed = trim_stack(orientation, &g, cur, auto_scale_width, auto_scale_height, height);
    (trimmed, positions)
}

} // verus!
