//! Sizes and positions of widgets: the space left for content inside borders and padding,
//! where content starts, the box a widget covers, and whether boxes and points meet it.
use vstd::prelude::*;
use crate::pixel::{Coordinates, IsizeCoordinates, Size};
use crate::definitions::{StateSize, StateCoordinates, BorderConfig, Padding};

verus! {

/// Space taken by a border on one axis: one position on each side.
pub open spec fn border_space(border: bool) -> nat {
    if border { 2 } else { 0 }
}

/// Space left for content on an axis of length `total`, after the border and the padding
/// on both sides; 0 when they take all the space.
pub open spec fn content_length(total: nat, border: bool, before: nat, after: nat) -> nat {
    let taken = border_space(border) + before + after;
    if total >= taken { (total - taken) as nat } else { 0 }
}

/// Length of an axis whose content should be `inner` long.
pub open spec fn outer_length(inner: nat, border: bool, before: nat, after: nat) -> nat {
    inner + border_space(border) + before + after
}

/// The size left for content inside a widget of size `size`, with its border and padding.
pub open spec fn effective_size_of(size: StateSize, border: BorderConfig, padding: Padding) -> Size {
    Size {
        width: content_length(size.width.value as nat, border.border.value,
            padding.padding_left.value as nat, padding.padding_right.value as nat) as usize,
        height: content_length(size.height.value as nat, border.border.value,
            padding.padding_top.value as nat, padding.padding_bottom.value as nat) as usize,
    }
}

/// Space left for content on one axis.
pub fn content_length_of(total: usize, border: bool, before: usize, after: usize) -> (r: usize)
    ensures
        r as nat == content_length(total as nat, border, before as nat, after as nat),
{
    let b: usize = if border { 2 } else { 0 };
    if total >= b && total - b >= before && total - b - before >= after {
        total - b - before - after
    } else {
        0
    }
}

/// Get the size left for content, taking off the border and padding.
pub fn get_effective_size(size: &StateSize, border: &BorderConfig, padding: &Padding) -> (r: Size)
    ensures
        r == effective_size_of(*size, *border, *padding),
{
    Size {
        width: content_length_of(size.width.value, border.border.value,
            padding.padding_left.value, padding.padding_right.value),
        height: content_length_of(size.height.value, border.border.value,
            padding.padding_top.value, padding.padding_bottom.value),
    }
}

/// The total length of an axis whose content should be `inner` long: the content plus the
/// border and the padding.
pub fn outer_length_of(inner: usize, border: bool, before: usize, after: usize) -> (r: usize)
    requires
        outer_length(inner as nat, border, before as nat, after as nat) <= usize::MAX,
    ensures
        r as nat == outer_length(inner as nat, border, before as nat, after as nat),
{
    inner + if border { 2 } else { 0 } + before + after
}

/// Setting an axis to the outer length of some content leaves exactly that content length.
pub proof fn lemma_content_of_outer(inner: nat, border: bool, before: nat, after: nat)
    ensures
        content_length(outer_length(inner, border, before, after), border, before, after) == inner,
{
}

/// An axis at least as long as its border and padding is the outer length of its content
/// length.
pub proof fn lemma_outer_of_content(total: nat, border: bool, before: nat, after: nat)
    requires
        total >= border_space(border) + before + after,
    ensures
        outer_length(content_length(total, border, before, after), border, before, after) == total,
{
}

/// Where content starts, relative to the widget's own position: after the border and the
/// leading padding.
pub open spec fn content_start(pos: nat, border: bool, before: nat) -> nat {
    pos + if border { 1nat } else { 0nat } + before
}

/// Get the position where content starts, relative to the parent: the widget position
/// moved past the border and the left and top padding.
pub fn get_effective_position(position: &StateCoordinates, border: &BorderConfig, padding: &Padding)
    -> (r: Coordinates)
    requires
        content_start(position.x.value as nat, border.border.value, padding.padding_left.value as nat) <= usize::MAX,
        content_start(position.y.value as nat, border.border.value, padding.padding_top.value as nat) <= usize::MAX,
    ensures
        r.x as nat == content_start(position.x.value as nat, border.border.value,
            padding.padding_left.value as nat),
        r.y as nat == content_start(position.y.value as nat, border.border.value,
            padding.padding_top.value as nat),
{
    let b: usize = if border.border.value { 1 } else { 0 };
    Coordinates::new(position.x.value + b + padding.padding_left.value,
        position.y.value + b + padding.padding_top.value)
}

/// Get the absolute position where content starts: the absolute position moved past the
/// border and the left and top padding.
pub fn get_effective_absolute_position(absolute: IsizeCoordinates, border: &BorderConfig,
    padding: &Padding) -> (r: IsizeCoordinates)
    requires
        padding.padding_left.value <= isize::MAX,
        padding.padding_top.value <= isize::MAX,
        absolute.x + 1 + padding.padding_left.value <= isize::MAX,
        absolute.y + 1 + padding.padding_top.value <= isize::MAX,
    ensures
        r.x == absolute.x + (if border.border.value { 1int } else { 0int }) + padding.padding_left.value,
        r.y == absolute.y + (if border.border.value { 1int } else { 0int }) + padding.padding_top.value,
{
    let b: isize = if border.border.value { 1 } else { 0 };
    let left = padding.padding_left.value as isize;
    let top = padding.padding_top.value as isize;
    IsizeCoordinates::new(absolute.x + b + left, absolute.y + b + top)
}

/// The box a widget covers: its absolute top left corner, and that corner moved by its size.
pub fn get_box(absolute: Coordinates, size: &StateSize) -> (r: (Coordinates, Coordinates))
    requires
        absolute.x + size.width.value <= usize::MAX,
        absolute.y + size.height.value <= usize::MAX,
    ensures
        r.0 == absolute,
        r.1 == (Coordinates { x: (absolute.x + size.width.value) as usize,
            y: (absolute.y + size.height.value) as usize }),
{
    (absolute, Coordinates::new(absolute.x + size.width.value, absolute.y + size.height.value))
}

/// Whether two boxes (top left and bottom right corners, bottom right exclusive) overlap.
pub open spec fn boxes_overlap(a: (Coordinates, Coordinates), b: (Coordinates, Coordinates)) -> bool {
    let (l1, r1) = a;
    let (l2, r2) = b;
    !(l1.x >= r2.x || l2.x >= r1.x) && !(l2.y >= r1.y || l1.y >= r2.y)
}

/// Whether the box of a widget overlaps another box.
pub fn overlaps(own_box: (Coordinates, Coordinates), other_box: (Coordinates, Coordinates)) -> (r: bool)
    ensures
        r == boxes_overlap(own_box, other_box),
{
    let (l1, r1) = own_box;
    let (l2, r2) = other_box;
    if l1.x >= r2.x || l2.x >= r1.x {
        return false;
    }
    if l2.y >= r1.y || l1.y >= r2.y {
        return false;
    }
    true
}

/// Overlap of boxes does not depend on which box comes first.
pub proof fn lemma_overlap_symmetric(a: (Coordinates, Coordinates), b: (Coordinates, Coordinates))
    ensures
        boxes_overlap(a, b) == boxes_overlap(b, a),
{
}

/// Whether `pos` lies within `width` by `height` positions starting at `start`.
pub open spec fn point_in(start: IsizeCoordinates, width: nat, height: nat, pos: IsizeCoordinates) -> bool {
    start.x <= pos.x <= start.x + width - 1 && start.y <= pos.y <= start.y + height - 1
}

/// Whether a point lies on a widget: between the start of its content and that start moved
/// by its size minus one.
pub fn collides(start: IsizeCoordinates, size: &StateSize, pos: IsizeCoordinates) -> (r: bool)
    requires
        size.width.value <= isize::MAX,
        size.height.value <= isize::MAX,
        start.x + size.width.value <= isize::MAX,
        start.y + size.height.value <= isize::MAX,
        start.x >= isize::MIN + 1,
        start.y >= isize::MIN + 1,
    ensures
        r == point_in(start, size.width.value as nat, size.height.value as nat, pos),
{
    let w = size.width.value as isize;
    let h = size.height.value as isize;
    let end_x = start.x + w - 1;
    let end_y = start.y + h - 1;
    pos.x >= start.x && pos.x <= end_x && pos.y >= start.y && pos.y <= end_y
}

/// Get all the coordinates of a box, column by column: x from the top left corner to the
/// bottom right corner inclusive, and y likewise within each column.
pub fn get_box_coords(top_left: Coordinates, bottom_right: Coordinates) -> (r: Vec<Coordinates>)
    requires
        bottom_right.x < usize::MAX,
        bottom_right.y < usize::MAX,
    ensures
        r@ == box_coords(top_left, bottom_right),
{
    let mut coords: Vec<Coordinates> = Vec::new();
    let mut x = top_left.x;
    while x < bottom_right.x + 1
        invariant
            top_left.x <= x,
            x <= bottom_right.x + 1 || x == top_left.x,
            bottom_right.x < usize::MAX,
            bottom_right.y < usize::MAX,
            coords@ == box_coords_upto(top_left, bottom_right, x as int),
        decreases bottom_right.x + 1 - x,
    {
        let ghost before = coords@;
        let mut y = top_left.y;
        while y < bottom_right.y + 1
            invariant
                top_left.y <= y,
                bottom_right.y < usize::MAX,
                y <= bottom_right.y + 1 || y == top_left.y,
                coords@ == before + Seq::new((y - top_left.y) as nat, |k: int| Coordinates {
                    x, y: (top_left.y + k) as usize }),
            decreases bottom_right.y + 1 - y,
        {
            coords.push(Coordinates::new(x, y));
            y = y + 1;
            assert(coords@ =~= before + Seq::new((y - top_left.y) as nat, |k: int| Coordinates {
                x, y: (top_left.y + k) as usize }));
        }
        assert(coords@ =~= box_coords_upto(top_left, bottom_right, x + 1));
        x = x + 1;
    }
    coords
}

/// The coordinates of column `x` of a box.
pub open spec fn box_column(top_left: Coordinates, bottom_right: Coordinates, x: int) -> Seq<Coordinates> {
    Seq::new(if bottom_right.y + 1 >= top_left.y { (bottom_right.y + 1 - top_left.y) as nat } else { 0 },
        |k: int| Coordinates { x: x as usize, y: (top_left.y + k) as usize })
}

/// The coordinates of the columns of a box left of column `x`.
pub open spec fn box_coords_upto(top_left: Coordinates, bottom_right: Coordinates, x: int) -> Seq<Coordinates>
    decreases x - top_left.x,
{
    if x <= top_left.x {
        Seq::empty()
    } else {
        box_coords_upto(top_left, bottom_right, x - 1) + box_column(top_left, bottom_right, x - 1)
    }
}

/// All coordinates of a box, bottom right corner included.
pub open spec fn box_coords(top_left: Coordinates, bottom_right: Coordinates) -> Seq<Coordinates> {
    box_coords_upto(top_left, bottom_right, bottom_right.x + 1)
}

} // verus!
