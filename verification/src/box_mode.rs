//! Box layouts: the room each child gets before it draws itself, how its size follows what
//! it drew, where the next child goes, and how the box scales to its children.
use vstd::prelude::*;
use crate::pixel::{IsizeCoordinates, PixelMap, PixelView, grid, column};
use crate::definitions::LayoutOrientation;
use crate::layout::{max_height, merged_horizontally, merged_below, merge_horizontal_contents,
    merge_vertical_contents};
use crate::pixel::{Color, copy_map};
use crate::definitions::{HorizontalAlignment, VerticalAlignment};
use crate::helpers::{fits_vertically, space_pixel};

verus! {

/// The sizing of a child of a box layout: its size, whether it may grow without bound and
/// whether it follows its content on each axis, and its position within the layout.
#[derive(Clone, Copy, Debug, PartialEq, Eq, Structural)]
pub struct ChildSizing {
    pub width: usize,
    pub height: usize,
    pub infinite_width: bool,
    pub infinite_height: bool,
    pub auto_scale_width: bool,
    pub auto_scale_height: bool,
    pub x: usize,
    pub y: usize,
}

/// What a box layout offers its children: its effective size, whether it may grow without
/// bound, and whether it scrolls, on each axis.
#[derive(Clone, Copy, Debug, PartialEq, Eq, Structural)]
pub struct BoxFrame {
    pub width: usize,
    pub height: usize,
    pub infinite_width: bool,
    pub infinite_height: bool,
    pub scroll_x: bool,
    pub scroll_y: bool,
}

/// A child of a layout that grows without bound or scrolls on an axis may grow without
/// bound on that axis too.
pub open spec fn inherit_infinite(frame: BoxFrame, c: ChildSizing) -> ChildSizing {
    ChildSizing {
        infinite_width: c.infinite_width || frame.infinite_width || frame.scroll_x,
        infinite_height: c.infinite_height || frame.infinite_height || frame.scroll_y,
        ..c
    }
}

/// The width left for a child of a horizontal box placed at `position_x`: none when the box
/// or the child is unbounded across, or the box scrolls across.
pub open spec fn width_left(frame: BoxFrame, c: ChildSizing, position_x: nat) -> nat {
    if !frame.scroll_x && !frame.infinite_width && !c.infinite_width && frame.width >= position_x {
        (frame.width - position_x) as nat
    } else {
        0
    }
}

/// A child of a horizontal box before it draws itself at `position_x`: a child that follows
/// its content gets all the width left and the box's height; a child larger than the room
/// left in a bounded box that does not scroll is cut down to it.
pub open spec fn prepared_horizontal(frame: BoxFrame, child: ChildSizing, position_x: nat) -> ChildSizing {
    let c = inherit_infinite(frame, child);
    let left = width_left(frame, c, position_x);
    let w1 = if c.auto_scale_width { left } else { c.width as nat };
    let h1 = if c.auto_scale_height { frame.height as nat } else { c.height as nat };
    let w2 = if !frame.scroll_x && !frame.infinite_width && w1 > left { left } else { w1 };
    let h2 = if !frame.scroll_y && !frame.infinite_height && h1 > frame.height { frame.height as nat } else { h1 };
    ChildSizing { width: w2 as usize, height: h2 as usize, x: position_x as usize, y: 0, ..c }
}

/// Size a child of a horizontal box before it draws itself (see [`prepared_horizontal`]).
pub fn prepare_horizontal_child(frame: &BoxFrame, child: ChildSizing, position_x: usize) -> (r: ChildSizing)
    ensures
        r == prepared_horizontal(*frame, child, position_x as nat),
        child.auto_scale_height ==> r.height == frame.height,
        r.x == position_x,
        r.y == 0,
{
    let mut c = child;
    if frame.infinite_width || frame.scroll_x {
        c.infinite_width = true;
    }
    if frame.infinite_height || frame.scroll_y {
        c.infinite_height = true;
    }
    let left = if !frame.scroll_x && !frame.infinite_width && !c.infinite_width && frame.width >= position_x {
        frame.width - position_x
    } else {
        0
    };
    if c.auto_scale_width {
        c.width = left;
    }
    if c.auto_scale_height {
        c.height = frame.height;
    }
    if !frame.scroll_x && !frame.infinite_width && c.width > left {
        c.width = left;
    }
    if !frame.scroll_y && !frame.infinite_height && c.height > frame.height {
        c.height = frame.height;
    }
    c.x = position_x;
    c.y = 0;
    c
}

/// The height left for a child of a vertical box placed at `position_y`.
pub open spec fn height_left(frame: BoxFrame, c: ChildSizing, position_y: nat) -> nat {
    if !frame.scroll_y && !frame.infinite_height && frame.height >= position_y && !c.infinite_height {
        (frame.height - position_y) as nat
    } else {
        0
    }
}

/// A child of a vertical box before it draws itself at `position_y`: a child that follows
/// its content gets the box's width and all the height left; a bounded child larger than
/// the room in a bounded box that does not scroll is cut down to it.
pub open spec fn prepared_vertical(frame: BoxFrame, child: ChildSizing, position_y: nat) -> ChildSizing {
    let c = inherit_infinite(frame, child);
    let left = height_left(frame, c, position_y);
    let w1 = if c.auto_scale_width { frame.width as nat } else { c.width as nat };
    let h1 = if c.auto_scale_height { left } else { c.height as nat };
    let w2 = if !frame.scroll_x && !frame.infinite_width && !c.infinite_width && w1 > frame.width {
        frame.width as nat } else { w1 };
    let h2 = if !frame.scroll_y && !frame.infinite_height && !c.infinite_height && h1 > left { left } else { h1 };
    ChildSizing { width: w2 as usize, height: h2 as usize, x: 0, y: position_y as usize, ..c }
}

/// Size a child of a vertical box before it draws itself (see [`prepared_vertical`]).
pub fn prepare_vertical_child(frame: &BoxFrame, child: ChildSizing, position_y: usize) -> (r: ChildSizing)
    ensures
        r == prepared_vertical(*frame, child, position_y as nat),
        child.auto_scale_width ==> r.width == frame.width,
        r.x == 0,
        r.y == position_y,
{
    let mut c = child;
    if frame.infinite_width || frame.scroll_x {
        c.infinite_width = true;
    }
    if frame.infinite_height || frame.scroll_y {
        c.infinite_height = true;
    }
    let left = if !frame.scroll_y && !frame.infinite_height && frame.height >= position_y && !c.infinite_height {
        frame.height - position_y
    } else {
        0
    };
    if c.auto_scale_width {
        c.width = frame.width;
    }
    if c.auto_scale_height {
        c.height = left;
    }
    if !frame.scroll_x && !frame.infinite_width && !c.infinite_width && c.width > frame.width {
        c.width = frame.width;
    }
    if !frame.scroll_y && !frame.infinite_height && !c.infinite_height && c.height > left {
        c.height = left;
    }
    c.x = 0;
    c.y = position_y;
    c
}

/// A child that follows its content on an axis gets all the room the box offers on it: in a
/// horizontal box, the width left after `position` (none when the box or the child is
/// unbounded across or the box scrolls across) and the box's height, cut to that height when
/// the box is bounded and does not scroll down; in a vertical box, the box's width, and the
/// height left after `position` (none in the same cases).
pub proof fn lemma_auto_scaled_children_fill(frame: BoxFrame, child: ChildSizing, position: nat)
    ensures
        child.auto_scale_width ==> prepared_horizontal(frame, child, position).width ==
            (if !frame.scroll_x && !frame.infinite_width && !child.infinite_width && frame.width >= position {
                frame.width - position } else { 0 }),
        child.auto_scale_height ==> prepared_horizontal(frame, child, position).height == frame.height,
        child.auto_scale_width ==> prepared_vertical(frame, child, position).width == frame.width,
        child.auto_scale_height ==> prepared_vertical(frame, child, position).height ==
            (if !frame.scroll_y && !frame.infinite_height && !child.infinite_height && frame.height >= position {
                frame.height - position } else { 0 }),
        !child.auto_scale_width && !frame.scroll_x && !frame.infinite_width && !child.infinite_width
            ==> prepared_vertical(frame, child, position).width
            == (if child.width <= frame.width { child.width } else { frame.width }),
{
}

/// In a bounded box that does not scroll, a child never gets more room than is left: in a
/// horizontal box its width fits in the width left and its height in the box; in a vertical
/// box its height fits in the height left and its width in the box.
pub proof fn lemma_children_fit(frame: BoxFrame, child: ChildSizing, position: nat)
    ensures
        !frame.scroll_x && !frame.infinite_width ==> prepared_horizontal(frame, child, position).width
            <= width_left(frame, inherit_infinite(frame, child), position),
        !frame.scroll_y && !frame.infinite_height ==> prepared_horizontal(frame, child, position).height
            <= frame.height,
        !frame.scroll_y && !frame.infinite_height && !inherit_infinite(frame, child).infinite_height
            ==> prepared_vertical(frame, child, position).height
            <= height_left(frame, inherit_infinite(frame, child), position),
        !frame.scroll_x && !frame.infinite_width && !inherit_infinite(frame, child).infinite_width
            ==> prepared_vertical(frame, child, position).width <= frame.width,
{
}

/// Height of the first column of some content, 0 when it has none.
pub open spec fn first_column_height(c: Seq<Seq<PixelView>>) -> nat {
    if c.len() == 0 { 0 } else { c[0].len() }
}

/// A child after it drew `content` in a horizontal box, and where the next child goes: an
/// empty drawing changes nothing; otherwise a child that may grow without bound takes the
/// size it drew, and the next child goes right of it.
pub open spec fn after_horizontal(c: ChildSizing, content: Seq<Seq<PixelView>>, position_x: nat)
    -> (ChildSizing, nat) {
    if content.len() == 0 {
        (c, position_x)
    } else {
        (ChildSizing {
            width: if c.infinite_width { content.len() as usize } else { c.width },
            height: if c.infinite_height { content[0].len() as usize } else { c.height },
            ..c
        }, position_x + content.len())
    }
}

/// Record what a child of a horizontal box drew (see [`after_horizontal`]).
pub fn record_horizontal_child(c: ChildSizing, content: &PixelMap, position_x: usize) -> (r: (ChildSizing, usize))
    requires
        position_x + content@.len() <= usize::MAX,
    ensures
        (r.0, r.1 as nat) == after_horizontal(c, grid(content), position_x as nat),
{
    if content.len() == 0 {
        return (c, position_x);
    }
    assert(grid(content)[0] == column(content@[0]@));
    let mut s = c;
    if s.infinite_width {
        s.width = content.len();
    }
    if s.infinite_height {
        s.height = content[0].len();
    }
    (s, position_x + content.len())
}

/// In a horizontal box the next child starts right where the drawing of the one before it
/// ends, and in a vertical box right below it, so children never overlap.
pub proof fn lemma_next_child_starts_after(c: ChildSizing, content: Seq<Seq<PixelView>>, position: nat)
    ensures
        after_horizontal(c, content, position).1 == position + content.len(),
        after_vertical(c, content, position).1 == position + first_column_height(content),
{
}

/// A child after it drew `content` in a vertical box, and where the next child goes: a
/// child that may grow without bound takes the size it drew, and the next child goes below
/// it.
pub open spec fn after_vertical(c: ChildSizing, content: Seq<Seq<PixelView>>, position_y: nat)
    -> (ChildSizing, nat) {
    (ChildSizing {
        width: if c.infinite_width { content.len() as usize } else { c.width },
        height: if c.infinite_height { first_column_height(content) as usize } else { c.height },
        ..c
    }, position_y + first_column_height(content))
}

/// Record what a child of a vertical box drew (see [`after_vertical`]).
pub fn record_vertical_child(c: ChildSizing, content: &PixelMap, position_y: usize) -> (r: (ChildSizing, usize))
    requires
        position_y + first_column_height(grid(content)) <= usize::MAX,
    ensures
        (r.0, r.1 as nat) == after_vertical(c, grid(content), position_y as nat),
{
    let h = if content.len() > 0 { content[0].len() } else { 0 };
    proof {
        if content@.len() > 0 {
            assert(grid(content)[0] == column(content@[0]@));
        }
    }
    let mut s = c;
    if s.infinite_width {
        s.width = content.len();
    }
    if s.infinite_height {
        s.height = h;
    }
    (s, position_y + h)
}

/// The widest of some contents.
pub open spec fn max_width(cs: Seq<Seq<Seq<PixelView>>>) -> nat
    decreases cs.len(),
{
    if cs.len() == 0 { 0 } else {
        let rest = max_width(cs.drop_last());
        if cs.last().len() > rest { cs.last().len() } else { rest }
    }
}

/// The total width of some contents.
pub open spec fn total_width(cs: Seq<Seq<Seq<PixelView>>>) -> nat
    decreases cs.len(),
{
    if cs.len() == 0 { 0 } else { total_width(cs.drop_last()) + cs.last().len() }
}

/// The highest of some contents.
pub open spec fn max_content_height(cs: Seq<Seq<Seq<PixelView>>>) -> nat
    decreases cs.len(),
{
    if cs.len() == 0 { 0 } else {
        let rest = max_content_height(cs.drop_last());
        if max_height(cs.last()) > rest { max_height(cs.last()) } else { rest }
    }
}

/// The total height of some contents.
pub open spec fn total_height(cs: Seq<Seq<Seq<PixelView>>>) -> nat
    decreases cs.len(),
{
    if cs.len() == 0 { 0 } else { total_height(cs.drop_last()) + max_height(cs.last()) }
}

/// The contents of a list of pixel maps.
pub open spec fn grids(v: Seq<PixelMap>) -> Seq<Seq<Seq<PixelView>>> {
    v.map_values(|m: PixelMap| grid(&m))
}

/// The size a box layout that follows its content takes: a vertical box is as wide as its
/// widest child and as high as its children together; a horizontal box is as wide as its
/// children together and as high as its highest child.
pub open spec fn children_extent(cs: Seq<Seq<Seq<PixelView>>>, orientation: LayoutOrientation) -> (nat, nat) {
    (if orientation == LayoutOrientation::Vertical { max_width(cs) } else { total_width(cs) },
     if orientation == LayoutOrientation::Horizontal { max_content_height(cs) } else { total_height(cs) })
}

/// The size a box layout takes when it scales to its children (see [`children_extent`]).
pub fn scale_to_largest_child(content_list: &Vec<PixelMap>, orientation: LayoutOrientation) -> (r: (usize, usize))
    requires
        total_width(grids(content_list@)) <= usize::MAX,
        total_height(grids(content_list@)) <= usize::MAX,
    ensures
        (r.0 as nat, r.1 as nat) == children_extent(grids(content_list@), orientation),
{
    let ghost cs = grids(content_list@);
    let mut widest: usize = 0;
    let mut width_sum: usize = 0;
    let mut highest: usize = 0;
    let mut height_sum: usize = 0;
    let mut i: usize = 0;
    while i < content_list.len()
        invariant
            i <= content_list@.len(),
            cs == grids(content_list@),
            total_width(cs) <= usize::MAX,
            total_height(cs) <= usize::MAX,
            widest as nat == max_width(cs.take(i as int)),
            width_sum as nat == total_width(cs.take(i as int)),
            highest as nat == max_content_height(cs.take(i as int)),
            height_sum as nat == total_height(cs.take(i as int)),
        decreases content_list@.len() - i,
    {
        assert(cs.take(i + 1).drop_last() =~= cs.take(i as int));
        assert(cs.take(i + 1).last() == grid(&content_list@[i as int]));
        proof {
            lemma_totals_grow(cs, i + 1);
        }
        let w = content_list[i].len();
        let h = crate::layout::largest_height(&content_list[i]);
        if w > widest {
            widest = w;
        }
        if h > highest {
            highest = h;
        }
        width_sum = width_sum + w;
        height_sum = height_sum + h;
        i = i + 1;
    }
    assert(cs.take(content_list@.len() as int) =~= cs);
    (if orientation == LayoutOrientation::Vertical { widest } else { width_sum },
     if orientation == LayoutOrientation::Horizontal { highest } else { height_sum })
}

/// The totals of a prefix are at most the totals of the whole.
proof fn lemma_totals_grow(cs: Seq<Seq<Seq<PixelView>>>, k: int)
    requires
        0 <= k <= cs.len(),
    ensures
        total_width(cs.take(k)) <= total_width(cs),
        total_height(cs.take(k)) <= total_height(cs),
    decreases cs.len() - k,
{
    if k < cs.len() {
        lemma_totals_grow(cs, k + 1);
        assert(cs.take(k + 1).drop_last() =~= cs.take(k));
    } else {
        assert(cs.take(k) =~= cs);
    }
}

/// How far scrolled content is moved: the view start itself, written as the whole pages
/// scrolled plus the rest of a page.
pub open spec fn scroll_offset(view_start: nat, length: nat) -> nat {
    (view_start / length) * length + view_start % length
}

/// The absolute position of a child of a layout: the layout's absolute position moved by
/// the child's position, and back by the view start on each axis the layout scrolls on
/// (when it has some length on that axis).
pub open spec fn child_absolute_position(layout: IsizeCoordinates, x: nat, y: nat, scrolling_x: bool,
    scrolling_y: bool, width: nat, height: nat, view_start_x: nat, view_start_y: nat) -> IsizeCoordinates {
    IsizeCoordinates {
        x: (layout.x + x - if scrolling_x && width > 0 { scroll_offset(view_start_x, width) as int } else { 0 }) as isize,
        y: (layout.y + y - if scrolling_y && height > 0 { scroll_offset(view_start_y, height) as int } else { 0 }) as isize,
    }
}

/// Moving by the whole pages scrolled plus the rest of a page is moving by the view start.
pub proof fn lemma_scroll_offset_is_view_start(view_start: nat, length: nat)
    requires
        length > 0,
    ensures
        scroll_offset(view_start, length) == view_start,
{
    vstd::arithmetic::div_mod::lemma_fundamental_div_mod(view_start as int, length as int);
    assert((view_start / length) * length == length * (view_start / length)) by (nonlinear_arith);
}

/// The absolute position of a child of a layout (see [`child_absolute_position`]).
pub fn get_child_absolute_position(layout: IsizeCoordinates, x: usize, y: usize, scrolling_x: bool,
    scrolling_y: bool, width: usize, height: usize, view_start_x: usize, view_start_y: usize)
    -> (r: IsizeCoordinates)
    requires
        x <= isize::MAX,
        y <= isize::MAX,
        view_start_x <= isize::MAX,
        view_start_y <= isize::MAX,
        isize::MIN <= layout.x + x - view_start_x,
        layout.x + x <= isize::MAX,
        isize::MIN <= layout.y + y - view_start_y,
        layout.y + y <= isize::MAX,
    ensures
        r == child_absolute_position(layout, x as nat, y as nat, scrolling_x, scrolling_y, width as nat,
            height as nat, view_start_x as nat, view_start_y as nat),
{
    let mut ax = layout.x + x as isize;
    let mut ay = layout.y + y as isize;
    if scrolling_x && width > 0 {
        proof { lemma_scroll_offset_is_view_start(view_start_x as nat, width as nat); }
        let offset = (view_start_x / width) * width + view_start_x % width;
        ax = ax - offset as isize;
    }
    if scrolling_y && height > 0 {
        proof { lemma_scroll_offset_is_view_start(view_start_y as nat, height as nat); }
        let offset = (view_start_y / height) * height + view_start_y % height;
        ay = ay - offset as isize;
    }
    IsizeCoordinates::new(ax, ay)
}

/// The content of a horizontal box: its children's contents placed side by side in order
/// (see [`merged_horizontally`]), and how far down each child moved to be aligned.
pub open spec fn box_row(contents: Seq<Seq<Seq<PixelView>>>, valigns: Seq<VerticalAlignment>, height: nat,
    infinite_height: bool, e: PixelView) -> (Seq<Seq<PixelView>>, Seq<nat>)
    decreases contents.len(),
{
    if contents.len() == 0 {
        (Seq::empty(), Seq::empty())
    } else {
        let (m, offsets) = box_row(contents.drop_last(), valigns.drop_last(), height, infinite_height, e);
        let (m2, off) = merged_horizontally(m, contents.last(), height, infinite_height,
            valigns[contents.len() - 1], e);
        (m2, offsets.push(off))
    }
}

/// Whether a child's content can be placed in a horizontal box of the given height: it has
/// a column when the height is bounded, and fits the height when it is aligned in it.
pub open spec fn row_child_ok(c: Seq<Seq<PixelView>>, height: nat, infinite_height: bool) -> bool {
    &&& !infinite_height ==> c.len() > 0
    &&& !infinite_height && height > c[0].len() ==> fits_vertically(c, height)
}

/// Merge the contents of a horizontal box's children, in order, side by side (see
/// [`box_row`]); `ys` are the children's vertical positions. Returns the merged content and
/// each child's vertical position after its alignment.
pub fn merge_box_row(contents: &Vec<PixelMap>, valigns: &Vec<VerticalAlignment>, ys: &Vec<usize>,
    height: usize, infinite_height: bool, fg: Color, bg: Color) -> (r: (PixelMap, Vec<usize>))
    requires
        valigns@.len() == contents@.len(),
        ys@.len() == contents@.len(),
        forall|i: int| 0 <= i < contents@.len() ==> row_child_ok(grid(&#[trigger] contents@[i]), height as nat,
            infinite_height),
        forall|i: int| 0 <= i < ys@.len() ==> #[trigger] ys@[i] + height <= usize::MAX,
    ensures
        ({
            let (m, offsets) = box_row(contents@.map_values(|c: PixelMap| grid(&c)), valigns@, height as nat,
                infinite_height, space_pixel(fg, bg));
            &&& grid(&r.0) == m
            &&& r.1@.len() == contents@.len()
            &&& forall|i: int| 0 <= i < r.1@.len() ==> (#[trigger] r.1@[i]) == ys@[i] + offsets[i]
        }),
{
    let ghost cs = contents@.map_values(|c: PixelMap| grid(&c));
    let ghost e = space_pixel(fg, bg);
    let mut merged: PixelMap = Vec::new();
    let mut out: Vec<usize> = Vec::new();
    let mut i: usize = 0;
    assert(cs.take(0) =~= Seq::<Seq<Seq<PixelView>>>::empty());
    while i < contents.len()
        invariant
            i <= contents@.len(),
            cs == contents@.map_values(|c: PixelMap| grid(&c)),
            e == space_pixel(fg, bg),
            valigns@.len() == contents@.len(),
            ys@.len() == contents@.len(),
            forall|k: int| 0 <= k < contents@.len() ==> row_child_ok(grid(&#[trigger] contents@[k]), height as nat,
                infinite_height),
            forall|k: int| 0 <= k < ys@.len() ==> #[trigger] ys@[k] + height <= usize::MAX,
            out@.len() == i,
            grid(&merged) == box_row(cs.take(i as int), valigns@.take(i as int), height as nat, infinite_height, e).0,
            forall|k: int| 0 <= k < i ==> (#[trigger] out@[k]) == ys@[k] + box_row(cs.take(i as int),
                valigns@.take(i as int), height as nat, infinite_height, e).1[k],
            box_row(cs.take(i as int), valigns@.take(i as int), height as nat, infinite_height, e).1.len() == i,
        decreases contents@.len() - i,
    {
        let ghost before = box_row(cs.take(i as int), valigns@.take(i as int), height as nat, infinite_height, e);
        let child = copy_map(&contents[i]);
        assert(cs[i as int] == grid(&contents@[i as int]));
        assert(row_child_ok(grid(&contents@[i as int]), height as nat, infinite_height));
        assert(ys@[i as int] + height <= usize::MAX);
        let (m, y) = merge_horizontal_contents(merged, child, height, infinite_height, fg, bg, valigns[i], ys[i]);
        merged = m;
        out.push(y);
        proof {
            let next = cs.take(i + 1);
            assert(next.drop_last() =~= cs.take(i as int));
            assert(valigns@.take(i + 1).drop_last() =~= valigns@.take(i as int));
            assert(next.last() == cs[i as int]);
            assert(valigns@.take(i + 1)[i as int] == valigns@[i as int]);
        }
        i = i + 1;
    }
    assert(cs.take(contents@.len() as int) =~= cs);
    assert(valigns@.take(contents@.len() as int) =~= valigns@);
    (merged, out)
}

/// The content of a vertical box: its children's contents written one below the other in
/// order (see [`merged_below`]), and where each child starts across after its alignment.
pub open spec fn box_column(contents: Seq<Seq<Seq<PixelView>>>, haligns: Seq<HorizontalAlignment>,
    xs: Seq<nat>, infinite_widths: Seq<bool>, width: nat, infinite_width: bool, e: PixelView)
    -> (Seq<Seq<PixelView>>, Seq<nat>)
    decreases contents.len(),
{
    if contents.len() == 0 {
        (Seq::empty(), Seq::empty())
    } else {
        let k = contents.len() - 1;
        let (m, positions) = box_column(contents.drop_last(), haligns.drop_last(), xs.drop_last(),
            infinite_widths.drop_last(), width, infinite_width, e);
        let (m2, x) = merged_below(m, contents.last(), width, infinite_width, haligns[k], xs[k],
            infinite_widths[k], e);
        (m2, positions.push(x))
    }
}

/// Merge the contents of a vertical box's children, in order, one below the other (see
/// [`box_column`]); `xs` are the children's horizontal positions and `infinite_widths`
/// whether each may grow without bound across. Returns the merged content and each child's
/// horizontal position after its alignment.
pub fn merge_box_column(contents: &Vec<PixelMap>, haligns: &Vec<HorizontalAlignment>, xs: &Vec<usize>,
    infinite_widths: &Vec<bool>, width: usize, infinite_width: bool, fg: Color, bg: Color)
    -> (r: (PixelMap, Vec<usize>))
    requires
        haligns@.len() == contents@.len(),
        xs@.len() == contents@.len(),
        infinite_widths@.len() == contents@.len(),
        forall|i: int| 0 <= i < xs@.len() ==> #[trigger] xs@[i] + width <= usize::MAX,
    ensures
        ({
            let (m, positions) = box_column(contents@.map_values(|c: PixelMap| grid(&c)), haligns@,
                xs@.map_values(|x: usize| x as nat), infinite_widths@, width as nat, infinite_width,
                space_pixel(fg, bg));
            &&& grid(&r.0) == m
            &&& r.1@.len() == contents@.len()
            &&& forall|i: int| 0 <= i < r.1@.len() ==> (#[trigger] r.1@[i]) as nat == positions[i]
        }),
{
    let ghost cs = contents@.map_values(|c: PixelMap| grid(&c));
    let ghost xv = xs@.map_values(|x: usize| x as nat);
    let ghost e = space_pixel(fg, bg);
    let mut merged: PixelMap = Vec::new();
    let mut out: Vec<usize> = Vec::new();
    let mut i: usize = 0;
    while i < contents.len()
        invariant
            i <= contents@.len(),
            cs == contents@.map_values(|c: PixelMap| grid(&c)),
            xv == xs@.map_values(|x: usize| x as nat),
            e == space_pixel(fg, bg),
            haligns@.len() == contents@.len(),
            xs@.len() == contents@.len(),
            infinite_widths@.len() == contents@.len(),
            forall|k: int| 0 <= k < xs@.len() ==> #[trigger] xs@[k] + width <= usize::MAX,
            out@.len() == i,
            grid(&merged) == box_column(cs.take(i as int), haligns@.take(i as int), xv.take(i as int),
                infinite_widths@.take(i as int), width as nat, infinite_width, e).0,
            box_column(cs.take(i as int), haligns@.take(i as int), xv.take(i as int),
                infinite_widths@.take(i as int), width as nat, infinite_width, e).1.len() == i,
            forall|k: int| 0 <= k < i ==> (#[trigger] out@[k]) as nat == box_column(cs.take(i as int),
                haligns@.take(i as int), xv.take(i as int), infinite_widths@.take(i as int), width as nat,
                infinite_width, e).1[k],
        decreases contents@.len() - i,
    {
        let child = copy_map(&contents[i]);
        assert(cs[i as int] == grid(&contents@[i as int]));
        assert(xs@[i as int] + width <= usize::MAX);
        let (m, x) = merge_vertical_contents(merged, child, width, infinite_width, fg, bg, haligns[i], xs[i],
            infinite_widths[i]);
        merged = m;
        out.push(x);
        proof {
            assert(cs.take(i + 1).drop_last() =~= cs.take(i as int));
            assert(haligns@.take(i + 1).drop_last() =~= haligns@.take(i as int));
            assert(xv.take(i + 1).drop_last() =~= xv.take(i as int));
            assert(infinite_widths@.take(i + 1).drop_last() =~= infinite_widths@.take(i as int));
            assert(cs.take(i + 1).last() == cs[i as int]);
            assert(haligns@.take(i + 1)[i as int] == haligns@[i as int]);
            assert(xv.take(i + 1)[i as int] == xs@[i as int] as nat);
            assert(infinite_widths@.take(i + 1)[i as int] == infinite_widths@[i as int]);
        }
        i = i + 1;
    }
    assert(cs.take(contents@.len() as int) =~= cs);
    assert(haligns@.take(contents@.len() as int) =~= haligns@);
    assert(xv.take(contents@.len() as int) =~= xv);
    assert(infinite_widths@.take(contents@.len() as int) =~= infinite_widths@);
    (merged, out)
}

} // verus!
