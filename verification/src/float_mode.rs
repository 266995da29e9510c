//! Float layouts: children are drawn at their own positions over a background of filler,
//! and a layout that follows its content is cut to the part its children wrote.
use vstd::prelude::*;
use crate::pixel::{Color, Pixel, PixelMap, PixelView, grid, column, repeat, lemma_grid_push, repeat_pixel,
    copy_column, plain_pixel};
use crate::definitions::ColorConfig;
use crate::helpers::space_pixel;
use crate::layout::{max_height, largest_height, lemma_max_height, overlay, overlaid};
use crate::strings::string_of_char;

verus! {

/// The pixel a float layout fills its background with: its filler symbol in its filler
/// colors when it fills, else a space in its own colors.
pub open spec fn float_filler(fill: bool, filler_symbol: Seq<char>, colors: ColorConfig) -> PixelView {
    if fill {
        plain_pixel(filler_symbol, colors.filler_fg_color.value, colors.filler_bg_color.value)
    } else {
        space_pixel(colors.fg_color.value, colors.bg_color.value)
    }
}

/// The background of a float layout: `width` columns of `height` filler pixels after what
/// the content already holds.
pub fn float_background(content: PixelMap, width: usize, height: usize, fill: bool, filler_symbol: &String,
    colors: &ColorConfig) -> (r: PixelMap)
    ensures
        grid(&r) == grid(&content) + Seq::new(width as nat, |_i: int|
            repeat(float_filler(fill, filler_symbol@, *colors), height as nat)),
{
    let filler = if fill {
        Pixel::new(filler_symbol.clone(), colors.filler_fg_color.value, colors.filler_bg_color.value)
    } else {
        Pixel::new(string_of_char(' '), colors.fg_color.value, colors.bg_color.value)
    };
    let ghost before = grid(&content);
    let ghost bg = Seq::new(width as nat, |_i: int| repeat(filler@, height as nat));
    let mut result = content;
    let mut x: usize = 0;
    while x < width
        invariant
            x <= width,
            bg == Seq::new(width as nat, |_i: int| repeat(filler@, height as nat)),
            grid(&result) == before + bg.take(x as int),
        decreases width - x,
    {
        let col = repeat_pixel(&filler, height);
        let ghost old_res = result@;
        let ghost cv = col;
        result.push(col);
        proof { lemma_grid_push(old_res, cv); }
        x = x + 1;
        assert(grid(&result) =~= before + bg.take(x as int));
    }
    assert(bg.take(width as int) =~= bg);
    result
}

/// The size a child of a float layout gets before it draws itself: the layout's size on an
/// axis where it follows its content, and at most the layout's size on each axis.
pub open spec fn float_child_size(own_width: nat, own_height: nat, width: nat, height: nat,
    auto_scale_width: bool, auto_scale_height: bool) -> (nat, nat) {
    let w = if auto_scale_width { own_width } else { width };
    let h = if auto_scale_height { own_height } else { height };
    (if w > own_width { own_width } else { w }, if h > own_height { own_height } else { h })
}

/// A float child that follows its content on an axis gets the layout's whole size on that
/// axis; one that does not keeps its own size, cut to the layout's size.
pub proof fn lemma_float_child_size(own_width: nat, own_height: nat, width: nat, height: nat,
    auto_scale_width: bool, auto_scale_height: bool)
    ensures
        ({
            let (w, h) = float_child_size(own_width, own_height, width, height, auto_scale_width, auto_scale_height);
            &&& auto_scale_width ==> w == own_width
            &&& auto_scale_height ==> h == own_height
            &&& !auto_scale_width ==> w == (if width <= own_width { width } else { own_width })
            &&& !auto_scale_height ==> h == (if height <= own_height { height } else { own_height })
        }),
{
}

/// The size a child of a float layout gets before it draws itself (see
/// [`float_child_size`]).
pub fn size_float_child(own_width: usize, own_height: usize, width: usize, height: usize,
    auto_scale_width: bool, auto_scale_height: bool) -> (r: (usize, usize))
    ensures
        (r.0 as nat, r.1 as nat) == float_child_size(own_width as nat, own_height as nat, width as nat,
            height as nat, auto_scale_width, auto_scale_height),
        r.0 <= own_width,
        r.1 <= own_height,
        auto_scale_width ==> r.0 == own_width,
        auto_scale_height ==> r.1 == own_height,
        !auto_scale_width ==> r.0 == (if width <= own_width { width } else { own_width }),
        !auto_scale_height ==> r.1 == (if height <= own_height { height } else { own_height }),
{
    let w = if auto_scale_width { own_width } else { width };
    let h = if auto_scale_height { own_height } else { height };
    (if w > own_width { own_width } else { w }, if h > own_height { own_height } else { h })
}

/// The last column of some content that holds a cell; -1 when none does.
pub open spec fn last_filled_column(c: Seq<Seq<PixelView>>) -> int
    decreases c.len(),
{
    if c.len() == 0 {
        -1
    } else if c.last().len() > 0 {
        c.len() - 1
    } else {
        last_filled_column(c.drop_last())
    }
}

/// The furthest column and row a float layout wrote to after drawing a child at (`x`, `y`),
/// given the furthest ones before: every cell of the child counts, whether or not it lies
/// within the layout.
pub open spec fn furthest_written(child: Seq<Seq<PixelView>>, x: nat, y: nat, furthest_x: nat, furthest_y: nat)
    -> (nat, nat) {
    let last = last_filled_column(child);
    let fx = if last >= 0 && x + last > furthest_x { (x + last) as nat } else { furthest_x };
    let fy = if max_height(child) > 0 && y + max_height(child) - 1 > furthest_y {
        (y + max_height(child) - 1) as nat } else { furthest_y };
    (fx, fy)
}

/// The furthest column and row written never go back, and after a child is drawn they
/// reach at least its last filled column and its bottom row.
pub proof fn lemma_furthest_written_grows(child: Seq<Seq<PixelView>>, x: nat, y: nat, furthest_x: nat,
    furthest_y: nat)
    ensures
        ({
            let (fx, fy) = furthest_written(child, x, y, furthest_x, furthest_y);
            &&& fx >= furthest_x
            &&& fy >= furthest_y
            &&& last_filled_column(child) >= 0 ==> fx >= x + last_filled_column(child)
            &&& max_height(child) > 0 ==> fy >= y + max_height(child) - 1
            &&& (fx == furthest_x || fx == x + last_filled_column(child))
            &&& (fy == furthest_y || fy == y + max_height(child) - 1)
        }),
{
}

/// The last column of some content that holds a cell, plus one (0 when none does).
pub(crate) fn filled_columns(c: &PixelMap) -> (r: usize)
    ensures
        r as int == last_filled_column(grid(c)) + 1,
{
    let mut k: usize = c.len();
    assert(grid(c).take(c@.len() as int) =~= grid(c));
    while k > 0
        invariant
            k <= c@.len(),
            last_filled_column(grid(c)) == last_filled_column(grid(c).take(k as int)),
        decreases k,
    {
        assert(grid(c).take(k as int).last() == column(c@[k - 1]@));
        assert(grid(c).take(k as int).drop_last() =~= grid(c).take(k - 1));
        if c[k - 1].len() > 0 {
            return k;
        }
        k = k - 1;
    }
    assert(grid(c).take(0) =~= Seq::<Seq<PixelView>>::empty());
    0
}

/// Draw a child of a float layout at (`x`, `y`) over the layout's content, writing only
/// cells within the content, and track the furthest column and row written (see
/// [`furthest_written`]).
pub fn place_float_child(content: &PixelMap, child: &PixelMap, x: usize, y: usize, furthest_x: usize,
    furthest_y: usize) -> (r: (PixelMap, usize, usize))
    requires
        x + child@.len() <= usize::MAX,
        y + max_height(grid(child)) <= usize::MAX,
    ensures
        grid(&r.0) == overlaid(grid(content), grid(child), x as nat, y as nat, usize::MAX as nat,
            usize::MAX as nat),
        (r.1 as nat, r.2 as nat) == furthest_written(grid(child), x as nat, y as nat, furthest_x as nat,
            furthest_y as nat),
{
    let placed = overlay(content, child, x, y, usize::MAX, usize::MAX);
    let filled = filled_columns(child);
    let highest = largest_height(child);
    proof { lemma_last_filled_bound(grid(child)); }
    let fx = if filled > 0 && x + (filled - 1) > furthest_x { x + (filled - 1) } else { furthest_x };
    let fy = if highest > 0 && y + highest - 1 > furthest_y { y + highest - 1 } else { furthest_y };
    (placed, fx, fy)
}

pub(crate) proof fn lemma_last_filled_bound(c: Seq<Seq<PixelView>>)
    ensures
        -1 <= last_filled_column(c) < c.len(),
    decreases c.len(),
{
    if c.len() > 0 && c.last().len() == 0 {
        lemma_last_filled_bound(c.drop_last());
    }
}

/// A float layout's content cut to what its children wrote: up to the furthest column
/// written when it follows its content across, and up to the furthest row written in each
/// column when it follows its content down.
pub open spec fn float_trimmed(c: Seq<Seq<PixelView>>, auto_scale_width: bool, auto_scale_height: bool,
    furthest_x: nat, furthest_y: nat) -> Seq<Seq<PixelView>> {
    let w = if auto_scale_width { c.take((furthest_x + 1) as int) } else { c };
    if auto_scale_height { w.map_values(|col: Seq<PixelView>| col.take((furthest_y + 1) as int)) } else { w }
}

/// The effective length a float layout that follows its content takes on an axis: one more
/// than the furthest position written, or 0 when that is the first position.
pub open spec fn float_extent(furthest: nat) -> nat {
    if furthest > 0 { furthest + 1 } else { 0 }
}

/// Cut a float layout's content to what its children wrote (see [`float_trimmed`]), and
/// return the effective width and height it then takes on the axes where it follows its
/// content (see [`float_extent`]).
pub fn trim_float_contents(content: &PixelMap, auto_scale_width: bool, auto_scale_height: bool,
    furthest_x: usize, furthest_y: usize) -> (r: (PixelMap, usize, usize))
    requires
        auto_scale_width ==> furthest_x < content@.len(),
        auto_scale_height ==> forall|i: int| 0 <= i < content@.len()
            && (!auto_scale_width || i <= furthest_x) ==> furthest_y < #[trigger] content@[i]@.len(),
        furthest_x < usize::MAX,
        furthest_y < usize::MAX,
    ensures
        grid(&r.0) == float_trimmed(grid(content), auto_scale_width, auto_scale_height, furthest_x as nat,
            furthest_y as nat),
        r.1 as nat == float_extent(furthest_x as nat),
        r.2 as nat == float_extent(furthest_y as nat),
{
    let ghost goal = float_trimmed(grid(content), auto_scale_width, auto_scale_height, furthest_x as nat,
        furthest_y as nat);
    let columns = if auto_scale_width { furthest_x + 1 } else { content.len() };
    let mut result: PixelMap = Vec::new();
    let mut i: usize = 0;
    while i < columns
        invariant
            i <= columns,
            columns <= content@.len(),
            columns == (if auto_scale_width { furthest_x + 1 } else { content@.len() as int }),
            auto_scale_height ==> forall|k: int| 0 <= k < content@.len()
                && (!auto_scale_width || k <= furthest_x) ==> furthest_y < #[trigger] content@[k]@.len(),
            furthest_y < usize::MAX,
            goal == float_trimmed(grid(content), auto_scale_width, auto_scale_height, furthest_x as nat,
                furthest_y as nat),
            goal.len() == columns,
            grid(&result) == goal.take(i as int),
        decreases columns - i,
    {
        let col = if auto_scale_height {
            let mut c: Vec<Pixel> = Vec::new();
            let mut j: usize = 0;
            while j <= furthest_y
                invariant
                    j <= furthest_y + 1,
                    furthest_y < usize::MAX,
                    furthest_y < content@[i as int]@.len(),
                    i < content@.len(),
                    c@ == content@[i as int]@.take(j as int),
                decreases furthest_y + 1 - j,
            {
                c.push(content[i][j].duplicate());
                j = j + 1;
                assert(c@ =~= content@[i as int]@.take(j as int));
            }
            c
        } else {
            copy_column(&content[i])
        };
        proof {
            assert(grid(content)[i as int] == column(content@[i as int]@));
            assert(column(col@) =~= goal[i as int]);
        }
        let ghost old_res = result@;
        let ghost cv = col;
        result.push(col);
        proof { lemma_grid_push(old_res, cv); }
        i = i + 1;
        assert(grid(&result) =~= goal.take(i as int));
    }
    assert(goal.take(columns as int) =~= goal);
    let w = if furthest_x > 0 { furthest_x + 1 } else { 0 };
    let h = if furthest_y > 0 { furthest_y + 1 } else { 0 };
    (result, w, h)
}

} // verus!
