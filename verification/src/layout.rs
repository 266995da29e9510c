//! Layout composition: merging child contents side by side or on top of each other, filling
//! the space a layout leaves empty, overlaying floating content, scrolling windows and
//! their scrollbars, and navigating tab headers.
use vstd::prelude::*;
use crate::pixel::{Color, Pixel, PixelMap, PixelView, plain_pixel, grid, column, repeat,
    lemma_grid_push, lemma_column_push, copy_column, repeat_pixel};
use crate::definitions::{HorizontalAlignment, VerticalAlignment};
use crate::helpers::{align_content_horizontally, align_content_vertically, aligned_horizontally,
    aligned_vertically, fits_vertically, space_pixel};
use crate::strings::string_of_char;

verus! {

/// The content with `new` placed to the right of `merged`: when the parent's height is
/// bounded and higher than the new content's first column, the new content is first
/// aligned vertically within it.
pub open spec fn merged_horizontally(merged: Seq<Seq<PixelView>>, new: Seq<Seq<PixelView>>,
    parent_height: nat, parent_infinite_height: bool, valign: VerticalAlignment, e: PixelView)
    -> (Seq<Seq<PixelView>>, nat) {
    if !parent_infinite_height && parent_height > new[0].len() {
        let (aligned, offset) = aligned_vertically(new, valign, parent_height, e);
        (merged + aligned, offset)
    } else {
        (merged + new, 0)
    }
}

/// Place a child's content to the right of the content merged so far. Returns the merged
/// content and the child's new vertical position (moved down by the alignment offset).
pub fn merge_horizontal_contents(merged: PixelMap, new: PixelMap, parent_height: usize,
    parent_infinite_height: bool, fg: Color, bg: Color, valign: VerticalAlignment, y: usize)
    -> (r: (PixelMap, usize))
    requires
        !parent_infinite_height ==> new@.len() > 0,
        !parent_infinite_height && parent_height > new@[0]@.len() ==> fits_vertically(grid(&new),
            parent_height as nat),
        y + parent_height <= usize::MAX,
    ensures
        ({
            let (m, offset) = merged_horizontally(grid(&merged), grid(&new), parent_height as nat,
                parent_infinite_height, valign, space_pixel(fg, bg));
            &&& grid(&r.0) == m
            &&& r.1 == y + offset
        }),
{
    let mut result = merged;
    let mut new_y = y;
    let mut content = new;
    if !parent_infinite_height && parent_height > content[0].len() {
        proof {
            assert(grid(&content)[0] == column(content@[0]@));
        }
        let (aligned, offset) = align_content_vertically(content, valign, parent_height,
            string_of_char(' '), fg, bg);
        proof {
            assert(offset <= parent_height) by {
                reveal_aligned_offset_bound(grid(&new), valign, parent_height as nat, space_pixel(fg, bg));
            }
        }
        content = aligned;
        new_y = y + offset;
    } else {
        proof {
            if !parent_infinite_height {
                assert(grid(&content)[0] == column(content@[0]@));
            }
        }
    }
    let ghost before = grid(&result);
    let mut i: usize = 0;
    while i < content.len()
        invariant
            i <= content@.len(),
            grid(&result) == before + grid(&content).take(i as int),
        decreases content@.len() - i,
    {
        let col = copy_column(&content[i]);
        let ghost old_res = result@;
        let ghost cv = col;
        result.push(col);
        proof { lemma_grid_push(old_res, cv); }
        i = i + 1;
        assert(grid(&result) =~= before + grid(&content).take(i as int));
    }
    assert(grid(&content).take(content@.len() as int) =~= grid(&content));
    (result, new_y)
}

/// The vertical offset an alignment produces is at most the total height.
proof fn reveal_aligned_offset_bound(c: Seq<Seq<PixelView>>, valign: VerticalAlignment, total: nat,
    e: PixelView)
    ensures
        aligned_vertically(c, valign, total, e).1 <= total,
{
}

/// A cell of the new content written below merged content: the new content's pixel, or
/// the filler pixel outside it.
pub open spec fn merged_cell(n: Seq<Seq<PixelView>>, x: int, y: int, e: PixelView) -> PixelView {
    if x < n.len() && y < n[x].len() { n[x][y] } else { e }
}

/// The content with rows of `new` added below `merged`: each of the first `width` columns
/// gets `height` more cells (new content, or filler outside it), and `merged` is extended
/// with empty columns up to `width` first. Nothing is added when `height` is 0.
pub open spec fn merged_vertically(merged: Seq<Seq<PixelView>>, new: Seq<Seq<PixelView>>, width: nat,
    height: nat, e: PixelView) -> Seq<Seq<PixelView>> {
    if height == 0 {
        merged
    } else {
        Seq::new(if merged.len() > width { merged.len() } else { width }, |x: int|
            (if x < merged.len() { merged[x] } else { Seq::empty() })
                + (if x < width { Seq::new(height, |y: int| merged_cell(new, x, y, e)) } else { Seq::empty() }))
    }
}

/// What a child's content becomes before it is written below merged content: when the
/// parent's width is bounded and wider, the content is aligned horizontally within it.
pub open spec fn vertical_child(new: Seq<Seq<PixelView>>, parent_width: nat, parent_infinite_width: bool,
    halign: HorizontalAlignment, e: PixelView) -> (Seq<Seq<PixelView>>, nat) {
    if parent_width > new.len() && !parent_infinite_width {
        aligned_horizontally(new, halign, parent_width, e)
    } else {
        (new, 0)
    }
}

/// The result of merging a child's content below merged content, and the child's new
/// horizontal position.
pub open spec fn merged_below(merged: Seq<Seq<PixelView>>, new: Seq<Seq<PixelView>>, parent_width: nat,
    parent_infinite_width: bool, halign: HorizontalAlignment, x: nat, child_infinite_width: bool,
    e: PixelView) -> (Seq<Seq<PixelView>>, nat) {
    if new.len() == 0 {
        (merged, x)
    } else {
        let (n, offset) = vertical_child(new, parent_width, parent_infinite_width, halign, e);
        let width = if !child_infinite_width { parent_width } else { n.len() };
        (merged_vertically(merged, n, width, n[0].len(), e), x + offset)
    }
}

/// Build the cells of one column of new content written below merged content.
fn below_cells(new: &PixelMap, x: usize, height: usize, e: &Pixel) -> (r: Vec<Pixel>)
    ensures
        column(r@) == Seq::new(height as nat, |y: int| merged_cell(grid(new), x as int, y, e@)),
{
    let mut r: Vec<Pixel> = Vec::new();
    let mut y: usize = 0;
    while y < height
        invariant
            y <= height,
            column(r@) == Seq::new(y as nat, |k: int| merged_cell(grid(new), x as int, k, e@)),
        decreases height - y,
    {
        let p = if x < new.len() && y < new[x].len() { new[x][y].duplicate() } else { e.duplicate() };
        let ghost before = r@;
        r.push(p);
        proof {
            lemma_column_push(before, p);
            if x < new@.len() {
                assert(grid(new)[x as int] == column(new@[x as int]@));
            }
            assert(column(r@) =~= Seq::new((y + 1) as nat, |k: int| merged_cell(grid(new), x as int, k, e@)));
        }
        y = y + 1;
    }
    r
}

/// Write a child's content below the content merged so far, over the parent's width (or
/// the child's own width when the child may grow without bound), filling cells outside the
/// child's content with spaces in the parent's colors. Returns the merged content and the
/// child's new horizontal position (moved right by the alignment offset).
pub fn merge_vertical_contents(merged: PixelMap, new: PixelMap, parent_width: usize,
    parent_infinite_width: bool, fg: Color, bg: Color, halign: HorizontalAlignment, x: usize,
    child_infinite_width: bool) -> (r: (PixelMap, usize))
    requires
        x + parent_width <= usize::MAX,
    ensures
        (grid(&r.0), r.1 as nat) == merged_below(grid(&merged), grid(&new), parent_width as nat,
            parent_infinite_width, halign, x as nat, child_infinite_width, space_pixel(fg, bg)),
{
    if new.len() == 0 {
        return (merged, x);
    }
    let e = Pixel::new(string_of_char(' '), fg, bg);
    let mut content = new;
    let mut new_x = x;
    if parent_width > content.len() && !parent_infinite_width {
        let (aligned, offset) = align_content_horizontally(content, halign, parent_width,
            string_of_char(' '), fg, bg);
        content = aligned;
        new_x = x + offset;
    }
    let ghost n = grid(&content);
    assert(n.len() > 0);
    let width = if !child_infinite_width { parent_width } else { content.len() };
    let height = content[0].len();
    assert(n[0].len() == height);
    if height == 0 {
        return (merged, new_x);
    }
    let total = if merged.len() > width { merged.len() } else { width };
    let ghost target = merged_vertically(grid(&merged), n, width as nat, height as nat, e@);
    let mut result: PixelMap = Vec::new();
    let mut i: usize = 0;
    while i < total
        invariant
            i <= total,
            total == if merged@.len() > width { merged@.len() as int } else { width as int },
            height > 0,
            n == grid(&content),
            target == merged_vertically(grid(&merged), n, width as nat, height as nat, e@),
            grid(&result) == target.take(i as int),
        decreases total - i,
    {
        let mut col: Vec<Pixel> = if i < merged.len() { copy_column(&merged[i]) } else { Vec::new() };
        let ghost first = col@;
        if i < width {
            let mut cells = below_cells(&content, i, height, &e);
            col.append(&mut cells);
        }
        proof {
            if i < merged@.len() {
                assert(grid(&merged)[i as int] == column(merged@[i as int]@));
            }
            assert(column(col@) =~= target[i as int]);
        }
        let ghost old_res = result@;
        let ghost cv = col;
        result.push(col);
        proof { lemma_grid_push(old_res, cv); }
        i = i + 1;
        assert(grid(&result) =~= target.take(i as int));
    }
    assert(target.take(total as int) =~= target);
    (result, new_x)
}

/// Whether a symbol counts as empty space: no characters, or a single space.
pub open spec fn is_blank(symbol: Seq<char>) -> bool {
    symbol.len() == 0 || symbol == seq![' ']
}

/// A column with its blank cells given the filler's symbol and filled with filler pixels up
/// to `height`.
pub open spec fn filled_column(c: Seq<PixelView>, filler: PixelView, height: nat) -> Seq<PixelView> {
    Seq::new(if c.len() > height { c.len() } else { height }, |y: int|
        if y < c.len() {
            if is_blank(c[y].symbol) { PixelView { symbol: filler.symbol, ..c[y] } } else { c[y] }
        } else {
            filler
        })
}

/// Content with a user filler applied to its first `width` columns.
pub open spec fn user_filled(c: Seq<Seq<PixelView>>, fill: bool, filler: PixelView, width: nat,
    height: nat) -> Seq<Seq<PixelView>> {
    if !fill {
        c
    } else {
        Seq::new(c.len(), |x: int| if x < width { filled_column(c[x], filler, height) } else { c[x] })
    }
}

/// Whether a pixel's symbol is empty or a single space.
fn blank_symbol(p: &Pixel) -> (r: bool)
    ensures
        r == is_blank(p.symbol@),
{
    let n = p.symbol.as_str().unicode_len();
    if n == 0 {
        true
    } else if n == 1 {
        let c = p.symbol.as_str().get_char(0);
        proof {
            if c == ' ' {
                assert(p.symbol@ =~= seq![' ']);
            }
        }
        c == ' '
    } else {
        false
    }
}

/// One column with the user filler applied.
fn fill_column(c: &Vec<Pixel>, filler: &Pixel, height: usize) -> (r: Vec<Pixel>)
    ensures
        column(r@) == filled_column(column(c@), filler@, height as nat),
{
    let mut r: Vec<Pixel> = Vec::new();
    let mut y: usize = 0;
    while y < c.len()
        invariant
            y <= c@.len(),
            column(r@) == filled_column(column(c@), filler@, height as nat).take(y as int),
        decreases c@.len() - y,
    {
        let p = if blank_symbol(&c[y]) {
            Pixel { symbol: filler.symbol.clone(), ..c[y].duplicate() }
        } else {
            c[y].duplicate()
        };
        let ghost before = r@;
        r.push(p);
        proof {
            lemma_column_push(before, p);
            assert(column(r@) =~= filled_column(column(c@), filler@, height as nat).take(y + 1));
        }
        y = y + 1;
    }
    while r.len() < height
        invariant
            c@.len() <= r@.len(),
            r@.len() <= (if c@.len() > height { c@.len() as int } else { height as int }),
            column(r@) == filled_column(column(c@), filler@, height as nat).take(r@.len() as int),
        decreases height - r@.len(),
    {
        let ghost before = r@;
        let p = filler.duplicate();
        r.push(p);
        proof {
            lemma_column_push(before, p);
            assert(column(r@) =~= filled_column(column(c@), filler@, height as nat).take(r@.len() as int));
        }
    }
    assert(column(r@) =~= filled_column(column(c@), filler@, height as nat));
    r
}

/// Apply a user's filler to the empty space of a layout's content: within the layout's
/// effective `width`, blank cells take the filler's symbol and each column is filled with
/// filler pixels up to the effective `height`. Nothing changes when filling is off.
pub fn add_user_filler(contents: PixelMap, fill: bool, filler: &Pixel, width: usize, height: usize)
    -> (r: PixelMap)
    requires
        fill ==> width <= contents@.len(),
    ensures
        grid(&r) == user_filled(grid(&contents), fill, filler@, width as nat, height as nat),
{
    if !fill {
        return contents;
    }
    let mut result: PixelMap = Vec::new();
    let mut x: usize = 0;
    while x < contents.len()
        invariant
            x <= contents@.len(),
            width <= contents@.len(),
            grid(&result) == user_filled(grid(&contents), fill, filler@, width as nat, height as nat).take(x as int),
            fill,
        decreases contents@.len() - x,
    {
        let col = if x < width { fill_column(&contents[x], filler, height) } else { copy_column(&contents[x]) };
        let ghost old_res = result@;
        let ghost cv = col;
        result.push(col);
        proof {
            lemma_grid_push(old_res, cv);
            assert(grid(&contents)[x as int] == column(contents@[x as int]@));
            assert(grid(&result) =~= user_filled(grid(&contents), fill, filler@, width as nat,
                height as nat).take(x + 1));
        }
        x = x + 1;
    }
    assert(grid(&result) =~= user_filled(grid(&contents), fill, filler@, width as nat, height as nat));
    result
}

/// The height of the highest column, 0 when there are none.
pub open spec fn max_height(c: Seq<Seq<PixelView>>) -> nat
    decreases c.len(),
{
    if c.len() == 0 { 0 } else {
        let rest = max_height(c.drop_last());
        if c.last().len() > rest { c.last().len() } else { rest }
    }
}

/// No column is higher than [`max_height`].
pub proof fn lemma_max_height(c: Seq<Seq<PixelView>>)
    ensures
        forall|i: int| 0 <= i < c.len() ==> #[trigger] c[i].len() <= max_height(c),
    decreases c.len(),
{
    if c.len() > 0 {
        lemma_max_height(c.drop_last());
        assert forall|i: int| 0 <= i < c.len() implies #[trigger] c[i].len() <= max_height(c) by {
            if i < c.len() - 1 {
                assert(c.drop_last()[i] == c[i]);
            }
        }
    }
}

/// Content filled with spaces up to `width` columns, each as high as `height` or as the
/// highest column, whichever is more.
pub open spec fn empty_filled(c: Seq<Seq<PixelView>>, width: nat, height: nat, e: PixelView)
    -> Seq<Seq<PixelView>> {
    let target = if height > max_height(c) { height } else { max_height(c) };
    Seq::new(if c.len() > width { c.len() } else { width }, |x: int| {
        let col = if x < c.len() { c[x] } else { Seq::<PixelView>::empty() };
        col + repeat(e, (target - col.len()) as nat)
    })
}

/// The height of the highest column.
pub fn largest_height(c: &PixelMap) -> (r: usize)
    ensures
        r as nat == max_height(grid(c)),
{
    let mut best: usize = 0;
    let mut i: usize = 0;
    while i < c.len()
        invariant
            i <= c@.len(),
            best as nat == max_height(grid(c).take(i as int)),
        decreases c@.len() - i,
    {
        assert(grid(c).take(i + 1).drop_last() =~= grid(c).take(i as int));
        assert(grid(c)[i as int] == column(c@[i as int]@));
        if c[i].len() > best {
            best = c[i].len();
        }
        i = i + 1;
    }
    assert(grid(c).take(c@.len() as int) =~= grid(c));
    best
}

/// Fill a layout's content with spaces in its own colors so that it covers its effective
/// size: columns up to `width`, every column as high as `height` or the highest column.
pub fn add_empty_filler(contents: PixelMap, width: usize, height: usize, fg: Color, bg: Color)
    -> (r: PixelMap)
    ensures
        grid(&r) == empty_filled(grid(&contents), width as nat, height as nat, space_pixel(fg, bg)),
{
    let e = Pixel::new(string_of_char(' '), fg, bg);
    let largest = largest_height(&contents);
    proof { lemma_max_height(grid(&contents)); }
    let target = if height > largest { height } else { largest };
    let total = if contents.len() > width { contents.len() } else { width };
    let ghost goal = empty_filled(grid(&contents), width as nat, height as nat, e@);
    let mut result: PixelMap = Vec::new();
    let mut x: usize = 0;
    while x < total
        invariant
            x <= total,
            total == if contents@.len() > width { contents@.len() as int } else { width as int },
            target as nat == if height > max_height(grid(&contents)) { height as nat } else { max_height(grid(&contents)) },
            forall|i: int| 0 <= i < grid(&contents).len() ==> #[trigger] grid(&contents)[i].len() <= max_height(grid(&contents)),
            goal == empty_filled(grid(&contents), width as nat, height as nat, e@),
            grid(&result) == goal.take(x as int),
        decreases total - x,
    {
        let mut col: Vec<Pixel> = if x < contents.len() { copy_column(&contents[x]) } else { Vec::new() };
        proof {
            if x < contents@.len() {
                assert(grid(&contents)[x as int] == column(contents@[x as int]@));
                assert(grid(&contents)[x as int].len() == col@.len());
            }
        }
        let ghost first = column(col@);
        let mut pad = repeat_pixel(&e, target - col.len());
        col.append(&mut pad);
        proof {
            assert(column(col@) =~= goal[x as int]);
        }
        let ghost old_res = result@;
        let ghost cv = col;
        result.push(col);
        proof { lemma_grid_push(old_res, cv); }
        x = x + 1;
        assert(grid(&result) =~= goal.take(x as int));
    }
    assert(goal.take(total as int) =~= goal);
    result
}


/// Content with `top` written over it from column `start_x`, row `start_y` on: a cell takes
/// the pixel of `top` that lands on it when it lies left of `limit_width` and above
/// `limit_height`; cells outside the content are not written.
pub open spec fn overlaid(c: Seq<Seq<PixelView>>, top: Seq<Seq<PixelView>>, start_x: nat, start_y: nat,
    limit_width: nat, limit_height: nat) -> Seq<Seq<PixelView>> {
    Seq::new(c.len(), |i: int| Seq::new(c[i].len(), |j: int|
        if start_x <= i && i < limit_width && i - start_x < top.len() && start_y <= j && j < limit_height
            && j - start_y < top[i - start_x].len() {
            top[i - start_x][j - start_y]
        } else {
            c[i][j]
        }))
}

/// One column of content with another content written over it.
fn overlay_column(c: &Vec<Pixel>, top: &PixelMap, i: usize, start_x: usize, start_y: usize,
    limit_width: usize, limit_height: usize) -> (r: Vec<Pixel>)
    ensures
        column(r@) == Seq::new(c@.len(), |j: int|
            if start_x <= i && i < limit_width && i - start_x < grid(top).len() && start_y <= j
                && j < limit_height && j - start_y < grid(top)[i - start_x].len() {
                grid(top)[i - start_x][j - start_y]
            } else {
                column(c@)[j]
            }),
{
    let mut r: Vec<Pixel> = Vec::new();
    let mut j: usize = 0;
    while j < c.len()
        invariant
            j <= c@.len(),
            column(r@) == Seq::new(j as nat, |k: int|
                if start_x <= i && i < limit_width && i - start_x < grid(top).len() && start_y <= k
                    && k < limit_height && k - start_y < grid(top)[i - start_x].len() {
                    grid(top)[i - start_x][k - start_y]
                } else {
                    column(c@)[k]
                }),
        decreases c@.len() - j,
    {
        let inside = start_x <= i && i < limit_width && i - start_x < top.len() && start_y <= j
            && j < limit_height && j - start_y < top[i - start_x].len();
        let p = if inside { top[i - start_x][j - start_y].duplicate() } else { c[j].duplicate() };
        let ghost before = r@;
        r.push(p);
        proof {
            lemma_column_push(before, p);
            if start_x <= i && i - start_x < top@.len() {
                assert(grid(top)[i - start_x] == column(top@[i - start_x]@));
            }
            assert(column(r@) =~= Seq::new((j + 1) as nat, |k: int|
                if start_x <= i && i < limit_width && i - start_x < grid(top).len() && start_y <= k
                    && k < limit_height && k - start_y < grid(top)[i - start_x].len() {
                    grid(top)[i - start_x][k - start_y]
                } else {
                    column(c@)[k]
                }));
        }
        j = j + 1;
    }
    r
}

/// Write `top` over `contents` from (`start_x`, `start_y`) on, within `limit_width` columns
/// and `limit_height` rows and within the content. A modal is written over its layout this
/// way, limited to the layout's size; floating children are written limited by the content.
pub fn overlay(contents: &PixelMap, top: &PixelMap, start_x: usize, start_y: usize,
    limit_width: usize, limit_height: usize) -> (r: PixelMap)
    ensures
        grid(&r) == overlaid(grid(contents), grid(top), start_x as nat, start_y as nat,
            limit_width as nat, limit_height as nat),
{
    let ghost goal = overlaid(grid(contents), grid(top), start_x as nat, start_y as nat,
        limit_width as nat, limit_height as nat);
    let mut result: PixelMap = Vec::new();
    let mut i: usize = 0;
    while i < contents.len()
        invariant
            i <= contents@.len(),
            goal == overlaid(grid(contents), grid(top), start_x as nat, start_y as nat,
                limit_width as nat, limit_height as nat),
            grid(&result) == goal.take(i as int),
        decreases contents@.len() - i,
    {
        let col = overlay_column(&contents[i], top, i, start_x, start_y, limit_width, limit_height);
        let ghost old_res = result@;
        let ghost cv = col;
        result.push(col);
        proof {
            lemma_grid_push(old_res, cv);
            assert(grid(contents)[i as int] == column(contents@[i as int]@));
            assert(column(cv@) =~= goal[i as int]);
        }
        i = i + 1;
        assert(grid(&result) =~= goal.take(i as int));
    }
    assert(goal.take(contents@.len() as int) =~= goal);
    result
}

/// Write the content of a modal over its layout's content, from the modal's position on and
/// within the layout's size. Every cell the modal writes inside that size must exist in the
/// layout's content.
pub fn add_modal_contents(contents: &PixelMap, modal: &PixelMap, start_x: usize, start_y: usize,
    parent_width: usize, parent_height: usize) -> (r: PixelMap)
    requires
        start_x + modal@.len() <= usize::MAX,
        start_y + max_height(grid(modal)) <= usize::MAX,
        forall|x: int, y: int| #![trigger modal@[x]@[y]] 0 <= x < modal@.len() && 0 <= y < modal@[x]@.len()
            && start_x + x < parent_width && start_y + y < parent_height
            ==> start_x + x < contents@.len() && start_y + y < contents@[start_x + x]@.len(),
    ensures
        grid(&r) == overlaid(grid(contents), grid(modal), start_x as nat, start_y as nat,
            parent_width as nat, parent_height as nat),
{
    overlay(contents, modal, start_x, start_y, parent_width, parent_height)
}

/// Writing a modal over a layout's content changes exactly the cells the modal covers
/// within the layout's size: those show the modal, all others keep the layout's content.
pub proof fn lemma_overlay_shows_top(c: Seq<Seq<PixelView>>, top: Seq<Seq<PixelView>>, start_x: nat,
    start_y: nat, limit_width: nat, limit_height: nat, x: int, y: int)
    requires
        0 <= x < top.len(),
        0 <= y < top[x].len(),
        start_x + x < limit_width,
        start_y + y < limit_height,
        start_x + x < c.len(),
        start_y + y < c[start_x + x].len(),
    ensures
        overlaid(c, top, start_x, start_y, limit_width, limit_height)[start_x + x][start_y + y] == top[x][y],
        overlaid(c, top, start_x, start_y, limit_width, limit_height).len() == c.len(),
{
}

/// Whether a layout scrolls along an axis: scrolling is enabled for it and the content is
/// longer than the layout along it.
pub open spec fn scrolls(enabled: bool, content_length: nat, own_length: nat) -> bool {
    enabled && content_length > own_length
}

/// The end of the visible window that starts at `view_start`.
pub open spec fn view_end(content_length: nat, view_start: nat, own_length: nat) -> nat {
    if content_length - view_start > own_length { view_start + own_length } else { content_length }
}

/// Whether a layout must scroll horizontally (see [`scrolls`]).
pub fn is_scrolling(enabled: bool, content_length: usize, own_length: usize) -> (r: bool)
    ensures
        r == scrolls(enabled, content_length as nat, own_length as nat),
{
    enabled && content_length > own_length
}

/// The columns of horizontally scrolled content that are in view: from `view_start` to the
/// start plus the layout's width, or to the end of the content.
pub fn horizontal_scroll_window(contents: &PixelMap, view_start: usize, own_width: usize) -> (r: PixelMap)
    requires
        view_start <= contents@.len(),
        view_start + own_width <= usize::MAX,
    ensures
        grid(&r) == grid(contents).subrange(view_start as int,
            view_end(contents@.len(), view_start as nat, own_width as nat) as int),
{
    let end = if contents.len() - view_start > own_width { view_start + own_width } else { contents.len() };
    let mut result: PixelMap = Vec::new();
    let mut i: usize = view_start;
    while i < end
        invariant
            view_start <= i <= end,
            end <= contents@.len(),
            grid(&result) == grid(contents).subrange(view_start as int, i as int),
        decreases end - i,
    {
        let col = copy_column(&contents[i]);
        let ghost old_res = result@;
        let ghost cv = col;
        result.push(col);
        proof { lemma_grid_push(old_res, cv); }
        i = i + 1;
        assert(grid(&result) =~= grid(contents).subrange(view_start as int, i as int));
    }
    result
}

/// The rows of vertically scrolled content that are in view, in every column: from
/// `view_start` to the start plus the layout's height, or to the height of the highest
/// column. Every column must reach the end of the window.
pub fn vertical_scroll_window(contents: &PixelMap, view_start: usize, own_height: usize) -> (r: PixelMap)
    requires
        view_start <= max_height(grid(contents)),
        view_start + own_height <= usize::MAX,
        forall|i: int| 0 <= i < contents@.len() ==> view_end(max_height(grid(contents)), view_start as nat,
            own_height as nat) <= #[trigger] contents@[i]@.len(),
    ensures
        grid(&r) == Seq::new(contents@.len(), |i: int| grid(contents)[i].subrange(view_start as int,
            view_end(max_height(grid(contents)), view_start as nat, own_height as nat) as int)),
{
    let largest = largest_height(contents);
    let end = if largest - view_start > own_height { view_start + own_height } else { largest };
    let ghost goal = Seq::new(contents@.len(), |i: int| grid(contents)[i].subrange(view_start as int, end as int));
    let mut result: PixelMap = Vec::new();
    let mut i: usize = 0;
    while i < contents.len()
        invariant
            i <= contents@.len(),
            view_start <= end,
            forall|k: int| 0 <= k < contents@.len() ==> end <= #[trigger] contents@[k]@.len(),
            goal == Seq::new(contents@.len(), |k: int| grid(contents)[k].subrange(view_start as int, end as int)),
            grid(&result) == goal.take(i as int),
        decreases contents@.len() - i,
    {
        let mut col: Vec<Pixel> = Vec::new();
        let mut j: usize = view_start;
        while j < end
            invariant
                view_start <= j <= end,
                end <= contents@[i as int]@.len(),
                i < contents@.len(),
                col@ == contents@[i as int]@.subrange(view_start as int, j as int),
            decreases end - j,
        {
            col.push(contents[i][j].duplicate());
            j = j + 1;
            assert(col@ =~= contents@[i as int]@.subrange(view_start as int, j as int));
        }
        let ghost old_res = result@;
        let ghost cv = col;
        result.push(col);
        proof {
            lemma_grid_push(old_res, cv);
            assert(grid(contents)[i as int] == column(contents@[i as int]@));
            assert(column(cv@) =~= goal[i as int]);
        }
        i = i + 1;
        assert(grid(&result) =~= goal.take(i as int));
    }
    assert(goal.take(contents@.len() as int) =~= goal);
    result
}

/// The symbol of a scrollbar cell at `i`: a bar from `position` to `position + size`
/// inclusive, a space elsewhere.
pub open spec fn scrollbar_symbol(i: int, position: nat, size: nat, bar: Seq<char>) -> Seq<char> {
    if position <= i <= position + size { bar } else { seq![' '] }
}

/// Add a horizontal scrollbar below horizontally scrolled content: each column gets one more
/// cell, part of the bar ("▀") from `position` over `size` more columns, a space elsewhere.
pub fn add_horizontal_scrollbar(contents: PixelMap, position: usize, size: usize, fg: Color, bg: Color)
    -> (r: PixelMap)
    requires
        position + size <= usize::MAX,
    ensures
        grid(&r) == Seq::new(contents@.len(), |i: int| grid(&contents)[i].push(plain_pixel(
            scrollbar_symbol(i, position as nat, size as nat, "\u{2580}"@), fg, bg))),
{
    let ghost goal = Seq::new(contents@.len(), |i: int| grid(&contents)[i].push(plain_pixel(
        scrollbar_symbol(i, position as nat, size as nat, "\u{2580}"@), fg, bg)));
    let mut result: PixelMap = Vec::new();
    let mut i: usize = 0;
    while i < contents.len()
        invariant
            i <= contents@.len(),
            position + size <= usize::MAX,
            goal == Seq::new(contents@.len(), |k: int| grid(&contents)[k].push(plain_pixel(
                scrollbar_symbol(k, position as nat, size as nat, "\u{2580}"@), fg, bg))),
            grid(&result) == goal.take(i as int),
        decreases contents@.len() - i,
    {
        let mut col = copy_column(&contents[i]);
        let symbol = if i >= position && i <= position + size { String::from_str("\u{2580}") }
            else { string_of_char(' ') };
        let p = Pixel::new(symbol, fg, bg);
        let ghost before = col@;
        col.push(p);
        proof {
            lemma_column_push(before, p);
            assert(grid(&contents)[i as int] == column(contents@[i as int]@));
        }
        let ghost old_res = result@;
        let ghost cv = col;
        result.push(col);
        proof { lemma_grid_push(old_res, cv); }
        i = i + 1;
        assert(grid(&result) =~= goal.take(i as int));
    }
    assert(goal.take(contents@.len() as int) =~= goal);
    result
}

/// Add a vertical scrollbar right of vertically scrolled content: one more column of
/// `height` cells, part of the bar ("▐") from `position` over `size` more rows, a space
/// elsewhere.
pub fn add_vertical_scrollbar(contents: PixelMap, height: usize, position: usize, size: usize, fg: Color,
    bg: Color) -> (r: PixelMap)
    requires
        position + size <= usize::MAX,
    ensures
        grid(&r) == grid(&contents).push(Seq::new(height as nat, |y: int| plain_pixel(
            scrollbar_symbol(y, position as nat, size as nat, "\u{2590}"@), fg, bg))),
{
    let mut bar: Vec<Pixel> = Vec::new();
    let mut y: usize = 0;
    while y < height
        invariant
            y <= height,
            position + size <= usize::MAX,
            column(bar@) == Seq::new(y as nat, |k: int| plain_pixel(
                scrollbar_symbol(k, position as nat, size as nat, "\u{2590}"@), fg, bg)),
        decreases height - y,
    {
        let symbol = if y >= position && y <= position + size { String::from_str("\u{2590}") }
            else { string_of_char(' ') };
        let p = Pixel::new(symbol, fg, bg);
        let ghost before = bar@;
        bar.push(p);
        proof {
            lemma_column_push(before, p);
            assert(column(bar@) =~= Seq::new((y + 1) as nat, |k: int| plain_pixel(
                scrollbar_symbol(k, position as nat, size as nat, "\u{2590}"@), fg, bg)));
        }
        y = y + 1;
    }
    let mut result = contents;
    let ghost old_res = result@;
    let ghost bv = bar;
    result.push(bar);
    proof { lemma_grid_push(old_res, bv); }
    result
}

/// Whether a mouse coordinate is on the line of a layout's scrollbar: the last line inside
/// its border, or its last line without one.
pub open spec fn on_scrollbar_line(coordinate: nat, border: bool, size: nat) -> bool {
    coordinate + (if border { 2nat } else { 1nat }) == size
}

/// Whether a mouse coordinate is on the line of a layout's scrollbar (see
/// [`on_scrollbar_line`]).
pub fn is_on_scrollbar_line(coordinate: usize, border: bool, size: usize) -> (r: bool)
    ensures
        r == on_scrollbar_line(coordinate as nat, border, size as nat),
{
    let offset: usize = if border { 2 } else { 1 };
    size >= offset && coordinate == size - offset
}

/// Whether a mouse position along a scrollbar grabs its thumb: from the thumb's position up
/// to its position plus its size.
pub open spec fn grabs_thumb(position: nat, thumb_position: nat, thumb_size: nat) -> bool {
    thumb_position <= position <= thumb_position + thumb_size
}

/// Whether a mouse press starts dragging a scrollbar's thumb (see [`grabs_thumb`]).
pub fn grabs_scrollbar_thumb(position: usize, thumb_position: usize, thumb_size: usize) -> (r: bool)
    ensures
        r == grabs_thumb(position as nat, thumb_position as nat, thumb_size as nat),
{
    position >= thumb_position && position - thumb_position <= thumb_size
}

/// What a click on a scrollbar's line does: before the thumb it scrolls back (left or up),
/// past its end it scrolls forward (right or down), on the thumb nothing.
#[derive(Clone, Copy, Debug, PartialEq, Eq, Structural)]
pub enum ScrollClick {
    Back,
    Forward,
    Nothing,
}

/// What a click at `position` along a scrollbar does (see [`ScrollClick`]).
pub open spec fn scroll_click(position: nat, thumb_position: nat, thumb_size: nat) -> ScrollClick {
    if position < thumb_position {
        ScrollClick::Back
    } else if position > thumb_position + thumb_size {
        ScrollClick::Forward
    } else {
        ScrollClick::Nothing
    }
}

/// What a click at `position` along a scrollbar does (see [`scroll_click`]).
pub fn get_scroll_click(position: usize, thumb_position: usize, thumb_size: usize) -> (r: ScrollClick)
    ensures
        r == scroll_click(position as nat, thumb_position as nat, thumb_size as nat),
{
    if position < thumb_position {
        ScrollClick::Back
    } else if position - thumb_position > thumb_size {
        ScrollClick::Forward
    } else {
        ScrollClick::Nothing
    }
}

} // verus!
