//! Transformations of pixel maps used when drawing widgets: borders, padding and
//! alignment.
use vstd::prelude::*;
use crate::pixel::{Pixel, PixelView, PixelMap, Color, column, grid, grid_of, plain_pixel, repeat,
    repeat_pixel, copy_column, lemma_column_push, lemma_grid_push, lemma_column_subrange};
use crate::definitions::{BorderConfig, ColorConfig, Padding, HorizontalAlignment,
    VerticalAlignment};

verus! {

broadcast use vstd::seq_lib::group_seq_properties;

/// `k` columns of `n` copies of `p`.
pub open spec fn filler_columns(p: PixelView, n: nat, k: nat) -> Seq<Seq<PixelView>> {
    Seq::new(k, |_i: int| repeat(p, n))
}

/// The border pixel drawn with `symbol` in the border colors.
pub open spec fn border_pixel(symbol: Seq<char>, colors: ColorConfig) -> PixelView {
    plain_pixel(symbol, colors.border_fg_color.value, colors.border_bg_color.value)
}

/// A pixel showing a space in the given colors.
pub open spec fn space_pixel(fg: Color, bg: Color) -> PixelView {
    plain_pixel(seq![' '], fg, bg)
}

/// `c` surrounded by a border: a left column of corner, vertical and corner symbols, each
/// column of `c` between two horizontal symbols, and a right column like the left one.
/// Empty content stays empty. The vertical sides are as high as the first column.
pub open spec fn bordered(
    c: Seq<Seq<PixelView>>,
    horizontal: PixelView,
    vertical: PixelView,
    top_left: PixelView,
    top_right: PixelView,
    bottom_left: PixelView,
    bottom_right: PixelView,
) -> Seq<Seq<PixelView>> {
    if c.len() == 0 {
        c
    } else {
        let h = c[0].len();
        seq![seq![top_left] + repeat(vertical, h) + seq![bottom_left]]
            + c.map_values(|col: Seq<PixelView>| seq![horizontal] + col + seq![horizontal])
            + seq![seq![top_right] + repeat(vertical, h) + seq![bottom_right]]
    }
}

/// A column with `p` at the top and bottom and `col` between.
fn framed_column(p: &Pixel, col: &Vec<Pixel>) -> (r: Vec<Pixel>)
    ensures
        column(r@) == seq![p@] + column(col@) + seq![p@],
{
    let mut r: Vec<Pixel> = Vec::new();
    r.push(p.duplicate());
    proof { lemma_column_push(Seq::empty(), *p); assert(Seq::<Pixel>::empty().push(*p) =~= r@); }
    let mut i: usize = 0;
    while i < col.len()
        invariant
            i <= col.len(),
            column(r@) == seq![p@] + column(col@.subrange(0, i as int)),
            r@.len() == i + 1,
        decreases col.len() - i,
    {
        let ghost old_r = r@;
        r.push(col[i].duplicate());
        proof {
            lemma_column_push(old_r, col@[i as int]);
            lemma_column_subrange(col@, i as int);
            lemma_column_subrange(col@, i + 1);
        }
        i = i + 1;
        assert(column(r@) =~= seq![p@] + column(col@.subrange(0, i as int)));
    }
    let ghost old_r = r@;
    r.push(p.duplicate());
    proof { lemma_column_push(old_r, *p); }
    assert(col@.subrange(0, i as int) =~= col@);
    assert(column(r@) =~= seq![p@] + column(col@) + seq![p@]);
    r
}

/// A column with `top` first, `n` copies of `middle`, then `bottom`.
fn side_column(top: Pixel, middle: &Pixel, n: usize, bottom: Pixel) -> (r: Vec<Pixel>)
    ensures
        column(r@) == seq![top@] + repeat(middle@, n as nat) + seq![bottom@],
{
    let mut r: Vec<Pixel> = Vec::new();
    let ghost t = top@;
    let ghost b = bottom@;
    r.push(top);
    proof { lemma_column_push(Seq::empty(), r@[0]); assert(Seq::<Pixel>::empty().push(r@[0]) =~= r@); }
    let mut i: usize = 0;
    while i < n
        invariant
            i <= n,
            column(r@) == seq![t] + repeat(middle@, i as nat),
            r@.len() == i + 1,
        decreases n - i,
    {
        let ghost old_r = r@;
        r.push(middle.duplicate());
        proof { lemma_column_push(old_r, *middle); }
        i = i + 1;
        assert(column(r@) =~= seq![t] + repeat(middle@, i as nat));
    }
    let ghost old_r = r@;
    let ghost bp = bottom;
    r.push(bottom);
    proof { lemma_column_push(old_r, bp); }
    assert(column(r@) =~= seq![t] + repeat(middle@, n as nat) + seq![b]);
    r
}

/// Add a border around a pixel map, drawn with the symbols of `config` in the border
/// colors of `colors`. Empty content is returned unchanged.
pub fn add_border(content: PixelMap, config: &BorderConfig, colors: &ColorConfig) -> (r: PixelMap)
    ensures
        grid(&r) == bordered(
            grid(&content),
            border_pixel(config.horizontal_symbol.value@, *colors),
            border_pixel(config.vertical_symbol.value@, *colors),
            border_pixel(config.top_left_symbol.value@, *colors),
            border_pixel(config.top_right_symbol.value@, *colors),
            border_pixel(config.bottom_left_symbol.value@, *colors),
            border_pixel(config.bottom_right_symbol.value@, *colors),
        ),
{
    if content.len() == 0 {
        return content;
    }
    let fg = colors.get_border_fg_color();
    let bg = colors.get_border_bg_color();
    let horizontal = Pixel::new(config.get_horizontal_symbol(), fg, bg);
    let vertical = Pixel::new(config.get_vertical_symbol(), fg, bg);
    let top_left = Pixel::new(config.get_top_left_symbol(), fg, bg);
    let top_right = Pixel::new(config.get_top_right_symbol(), fg, bg);
    let bottom_left = Pixel::new(config.get_bottom_left_symbol(), fg, bg);
    let bottom_right = Pixel::new(config.get_bottom_right_symbol(), fg, bg);
    let ghost (h, tl, tr, bl, br) = (horizontal@, top_left@, top_right@, bottom_left@, bottom_right@);
    let height = content[0].len();
    let ghost c = grid(&content);
    let ghost inner = c.map_values(|col: Seq<PixelView>| seq![h] + col + seq![h]);
    let ghost left = seq![tl] + repeat(vertical@, height as nat) + seq![bl];

    let mut result: PixelMap = Vec::new();
    let first = side_column(top_left, &vertical, height, bottom_left);
    result.push(first);
    proof { lemma_grid_push(Seq::empty(), result@[0]); assert(Seq::<Vec<Pixel>>::empty().push(result@[0]) =~= result@); }
    let mut x: usize = 0;
    while x < content.len()
        invariant
            x <= content.len(),
            c == grid(&content),
            h == horizontal@,
            inner == c.map_values(|col: Seq<PixelView>| seq![h] + col + seq![h]),
            grid(&result) == seq![left] + inner.subrange(0, x as int),
            result@.len() == x + 1,
        decreases content.len() - x,
    {
        let col = framed_column(&horizontal, &content[x]);
        let ghost old_res = result@;
        let ghost cv = col;
        result.push(col);
        proof { lemma_grid_push(old_res, cv); }
        x = x + 1;
        assert(grid(&result) =~= seq![left] + inner.subrange(0, x as int));
    }
    let last = side_column(top_right, &vertical, height, bottom_right);
    let ghost old_res = result@;
    let ghost lv = last;
    result.push(last);
    proof { lemma_grid_push(old_res, lv); }
    assert(inner.subrange(0, x as int) =~= inner);
    assert(grid(&result) =~= bordered(c, h, vertical@, tl, tr, bl, br));
    result
}

/// `c` with `left` and `right` columns of `p` at its sides (as high as the first column),
/// then `top` copies of `p` above and `bottom` copies below every column. Empty content
/// stays empty.
pub open spec fn padded(c: Seq<Seq<PixelView>>, top: nat, bottom: nat, left: nat, right: nat, p: PixelView)
    -> Seq<Seq<PixelView>> {
    if c.len() == 0 {
        c
    } else {
        (filler_columns(p, c[0].len(), left) + c + filler_columns(p, c[0].len(), right))
            .map_values(|col: Seq<PixelView>| repeat(p, top) + col + repeat(p, bottom))
    }
}

/// The border of a widget around some content.
pub open spec fn framed(c: Seq<Seq<PixelView>>, config: BorderConfig, colors: ColorConfig)
    -> Seq<Seq<PixelView>> {
    bordered(c,
        border_pixel(config.horizontal_symbol.value@, colors),
        border_pixel(config.vertical_symbol.value@, colors),
        border_pixel(config.top_left_symbol.value@, colors),
        border_pixel(config.top_right_symbol.value@, colors),
        border_pixel(config.bottom_left_symbol.value@, colors),
        border_pixel(config.bottom_right_symbol.value@, colors))
}

/// A column of `top` copies of `p`, then `col`, then `bottom` copies of `p`.
fn padded_column(p: &Pixel, top: usize, col: &Vec<Pixel>, bottom: usize) -> (r: Vec<Pixel>)
    ensures
        column(r@) == repeat(p@, top as nat) + column(col@) + repeat(p@, bottom as nat),
{
    let mut r = repeat_pixel(p, top);
    let mut i: usize = 0;
    while i < col.len()
        invariant
            i <= col.len(),
            column(r@) == repeat(p@, top as nat) + column(col@.subrange(0, i as int)),
            r@.len() == top + i,
        decreases col.len() - i,
    {
        let ghost old_r = r@;
        r.push(col[i].duplicate());
        proof {
            lemma_column_push(old_r, col@[i as int]);
            lemma_column_subrange(col@, i as int);
            lemma_column_subrange(col@, i + 1);
        }
        i = i + 1;
        assert(column(r@) =~= repeat(p@, top as nat) + column(col@.subrange(0, i as int)));
    }
    assert(col@.subrange(0, i as int) =~= col@);
    let mut j: usize = 0;
    while j < bottom
        invariant
            j <= bottom,
            column(r@) == repeat(p@, top as nat) + column(col@) + repeat(p@, j as nat),
            r@.len() == top + col@.len() + j,
        decreases bottom - j,
    {
        let ghost old_r = r@;
        r.push(p.duplicate());
        proof { lemma_column_push(old_r, *p); }
        j = j + 1;
        assert(column(r@) =~= repeat(p@, top as nat) + column(col@) + repeat(p@, j as nat));
    }
    r
}

/// Add padding around a pixel map: padding pixels are spaces in the given colors.
/// Empty content is returned unchanged.
pub fn add_padding(content: PixelMap, padding: &Padding, bg_color: Color, fg_color: Color)
    -> (r: PixelMap)
    ensures
        grid(&r) == padded(
            grid(&content),
            padding.padding_top.value as nat,
            padding.padding_bottom.value as nat,
            padding.padding_left.value as nat,
            padding.padding_right.value as nat,
            space_pixel(fg_color, bg_color),
        ),
{
    if content.len() == 0 {
        return content;
    }
    let p = Pixel::new(String::from_str(" "), fg_color, bg_color);
    proof {
        reveal_strlit(" ");
        assert(" "@ =~= seq![' ']);
        assert(p@ =~= space_pixel(fg_color, bg_color));
    }
    let top = padding.get_padding_top();
    let bottom = padding.get_padding_bottom();
    let left = padding.get_padding_left();
    let right = padding.get_padding_right();
    let height = content[0].len();
    let side = repeat_pixel(&p, height);
    let ghost c = grid(&content);
    let ghost full = filler_columns(p@, height as nat, left as nat) + c
        + filler_columns(p@, height as nat, right as nat);
    let ghost f = |col: Seq<PixelView>| repeat(p@, top as nat) + col + repeat(p@, bottom as nat);

    let mut result: PixelMap = Vec::new();
    let mut i: usize = 0;
    while i < left
        invariant
            i <= left,
            column(side@) == repeat(p@, height as nat),
            f == (|col: Seq<PixelView>| repeat(p@, top as nat) + col + repeat(p@, bottom as nat)),
            grid(&result) == full.subrange(0, i as int).map_values(f),
            result@.len() == i,
            full == filler_columns(p@, height as nat, left as nat) + c
                + filler_columns(p@, height as nat, right as nat),
        decreases left - i,
    {
        let col = padded_column(&p, top, &side, bottom);
        let ghost old_res = result@;
        let ghost cv = col;
        result.push(col);
        proof { lemma_grid_push(old_res, cv); }
        i = i + 1;
        assert(grid(&result) =~= full.subrange(0, i as int).map_values(f));
    }
    let mut x: usize = 0;
    while x < content.len()
        invariant
            x <= content.len(),
            i == left,
            c == grid(&content),
            f == (|col: Seq<PixelView>| repeat(p@, top as nat) + col + repeat(p@, bottom as nat)),
            grid(&result) == full.subrange(0, left + x).map_values(f),
            result@.len() == left + x,
            full == filler_columns(p@, height as nat, left as nat) + c
                + filler_columns(p@, height as nat, right as nat),
        decreases content.len() - x,
    {
        let col = padded_column(&p, top, &content[x], bottom);
        let ghost old_res = result@;
        let ghost cv = col;
        result.push(col);
        proof { lemma_grid_push(old_res, cv); }
        x = x + 1;
        assert(full[left + x - 1] == c[x - 1]);
        assert(grid(&result) =~= full.subrange(0, left + x).map_values(f));
    }
    let mut j: usize = 0;
    while j < right
        invariant
            j <= right,
            x == content.len(),
            c == grid(&content),
            column(side@) == repeat(p@, height as nat),
            f == (|col: Seq<PixelView>| repeat(p@, top as nat) + col + repeat(p@, bottom as nat)),
            grid(&result) == full.subrange(0, left + x + j).map_values(f),
            result@.len() == left + x + j,
            full == filler_columns(p@, height as nat, left as nat) + c
                + filler_columns(p@, height as nat, right as nat),
        decreases right - j,
    {
        let col = padded_column(&p, top, &side, bottom);
        let ghost old_res = result@;
        let ghost cv = col;
        result.push(col);
        proof { lemma_grid_push(old_res, cv); }
        j = j + 1;
        assert(grid(&result) =~= full.subrange(0, left + x + j).map_values(f));
    }
    assert(full.subrange(0, left + x + j) =~= full);
    result
}

/// Height of the first column (0 for no columns).
pub open spec fn first_height(c: Seq<Seq<PixelView>>) -> nat {
    if c.len() == 0 { 0 } else { c[0].len() }
}

/// Height of the last column (0 for no columns).
pub open spec fn last_height(c: Seq<Seq<PixelView>>) -> nat {
    if c.len() == 0 { 0 } else { c.last().len() }
}

/// Content aligned horizontally within `total` columns, and how many columns it moved
/// right. Content at least as wide is unchanged. Left alignment leaves it as it is; right
/// alignment adds filler columns (as high as the last column) on the left; center
/// alignment adds half of the missing columns on the left and the rest on the right (as
/// high as the first column).
pub open spec fn aligned_horizontally(c: Seq<Seq<PixelView>>, halign: HorizontalAlignment,
    total: nat, e: PixelView) -> (Seq<Seq<PixelView>>, nat) {
    if c.len() >= total {
        (c, 0)
    } else {
        let n = (total - c.len()) as nat;
        match halign {
            HorizontalAlignment::Left => (c, 0),
            HorizontalAlignment::Right => (filler_columns(e, last_height(c), n) + c, n),
            HorizontalAlignment::Center => (
                filler_columns(e, first_height(c), n / 2) + c
                    + filler_columns(e, first_height(c), ((n + 1) / 2) as nat),
                n / 2,
            ),
        }
    }
}

/// Append `k` columns of `n` copies of `p` to `result`.
fn push_filler_columns(result: &mut PixelMap, p: &Pixel, n: usize, k: usize)
    ensures
        grid(final(result)) == grid(old(result)) + filler_columns(p@, n as nat, k as nat),
        final(result)@.len() == old(result)@.len() + k,
{
    let mut i: usize = 0;
    while i < k
        invariant
            i <= k,
            grid(result) == grid(old(result)) + filler_columns(p@, n as nat, i as nat),
            result@.len() == old(result)@.len() + i,
        decreases k - i,
    {
        let col = repeat_pixel(p, n);
        let ghost old_res = result@;
        let ghost cv = col;
        result.push(col);
        proof { lemma_grid_push(old_res, cv); }
        i = i + 1;
        assert(grid(result) =~= grid(old(result)) + filler_columns(p@, n as nat, i as nat));
    }
}

/// Append copies of the columns of `c` to `result`.
fn push_columns(result: &mut PixelMap, c: &PixelMap)
    ensures
        grid(final(result)) == grid(old(result)) + grid(c),
        final(result)@.len() == old(result)@.len() + c@.len(),
{
    let mut i: usize = 0;
    while i < c.len()
        invariant
            i <= c.len(),
            grid(result) == grid(old(result)) + grid(c).subrange(0, i as int),
            result@.len() == old(result)@.len() + i,
        decreases c.len() - i,
    {
        let col = copy_column(&c[i]);
        let ghost old_res = result@;
        let ghost cv = col;
        result.push(col);
        proof { lemma_grid_push(old_res, cv); }
        i = i + 1;
        assert(grid(result) =~= grid(old(result)) + grid(c).subrange(0, i as int));
    }
    assert(grid(c).subrange(0, i as int) =~= grid(c));
}

/// Align content horizontally within `total_width` columns, filling new columns with
/// `filler_symbol` in the given colors. Returns the aligned content and how many columns
/// the content moved to the right.
pub fn align_content_horizontally(content: PixelMap, halign: HorizontalAlignment,
    total_width: usize, filler_symbol: String, fg_color: Color, bg_color: Color)
    -> (r: (PixelMap, usize))
    ensures
        (grid(&r.0), r.1 as nat) == aligned_horizontally(grid(&content), halign,
            total_width as nat, plain_pixel(filler_symbol@, fg_color, bg_color)),
{
    if content.len() >= total_width {
        return (content, 0);
    }
    let empty = Pixel::new(filler_symbol, fg_color, bg_color);
    let n = total_width - content.len();
    match halign {
        HorizontalAlignment::Left => (content, 0),
        HorizontalAlignment::Right => {
            let height = if content.len() == 0 { 0 } else { content[content.len() - 1].len() };
            let mut result: PixelMap = Vec::new();
            push_filler_columns(&mut result, &empty, height, n);
            push_columns(&mut result, &content);
            assert(grid(&result) =~= filler_columns(empty@, height as nat, n as nat) + grid(&content));
            (result, n)
        },
        HorizontalAlignment::Center => {
            let height = if content.len() == 0 { 0 } else { content[0].len() };
            let mut result: PixelMap = Vec::new();
            push_filler_columns(&mut result, &empty, height, n / 2);
            push_columns(&mut result, &content);
            push_filler_columns(&mut result, &empty, height, n - n / 2);
            assert(n - n / 2 == (n + 1) / 2);
            assert(grid(&result) =~= filler_columns(empty@, height as nat, (n / 2) as nat)
                + grid(&content) + filler_columns(empty@, height as nat, ((n + 1) / 2) as nat));
            (result, n / 2)
        },
    }
}

/// Whether vertical alignment within `total` rows can be done: when the first column is
/// lower than `total`, no column may be higher than `total`.
pub open spec fn fits_vertically(c: Seq<Seq<PixelView>>, total: nat) -> bool {
    c.len() > 0 && c[0].len() < total ==> forall|i: int| 0 <= i < c.len() ==> #[trigger] c[i].len() <= total
}

/// Content aligned vertically within `total` rows, and how many rows the first column
/// moved down. Empty content, or content whose first column is at least as high, is
/// unchanged. Otherwise every column is filled up to `total`: top alignment leaves it,
/// bottom alignment fills above, middle alignment puts half of the missing rows above and
/// the rest below.
pub open spec fn aligned_vertically(c: Seq<Seq<PixelView>>, valign: VerticalAlignment,
    total: nat, e: PixelView) -> (Seq<Seq<PixelView>>, nat) {
    if c.len() == 0 || c[0].len() >= total {
        (c, 0)
    } else {
        let k0 = (total - c[0].len()) as nat;
        match valign {
            VerticalAlignment::Top => (c, 0),
            VerticalAlignment::Bottom => (
                c.map_values(|col: Seq<PixelView>| repeat(e, (total - col.len()) as nat) + col),
                k0,
            ),
            VerticalAlignment::Middle => (
                c.map_values(|col: Seq<PixelView>|
                    repeat(e, ((total - col.len()) as nat) / 2) + col
                        + repeat(e, (((total - col.len()) as nat + 1) / 2) as nat)),
                k0 / 2,
            ),
        }
    }
}

/// A column of `above` copies of `p`, then `col`, then `below` copies of `p`.
fn surround_column(p: &Pixel, above: usize, col: &Vec<Pixel>, below: usize) -> (r: Vec<Pixel>)
    ensures
        column(r@) == repeat(p@, above as nat) + column(col@) + repeat(p@, below as nat),
{
    padded_column(p, above, col, below)
}

/// Align content vertically within `total_height` rows, filling new positions with
/// `filler_symbol` in the given colors. Returns the aligned content and how many rows the
/// first column moved down.
pub fn align_content_vertically(content: PixelMap, valign: VerticalAlignment,
    total_height: usize, filler_symbol: String, fg_color: Color, bg_color: Color)
    -> (r: (PixelMap, usize))
    requires
        fits_vertically(grid(&content), total_height as nat),
    ensures
        (grid(&r.0), r.1 as nat) == aligned_vertically(grid(&content), valign,
            total_height as nat, plain_pixel(filler_symbol@, fg_color, bg_color)),
{
    if content.len() == 0 {
        return (content, 0);
    }
    if content[0].len() >= total_height {
        return (content, 0);
    }
    match valign {
        VerticalAlignment::Top => { return (content, 0); },
        _ => {},
    }
    let empty = Pixel::new(filler_symbol, fg_color, bg_color);
    let ghost e = empty@;
    let ghost c = grid(&content);
    let ghost f = |col: Seq<PixelView>| if valign == VerticalAlignment::Bottom {
        repeat(e, (total_height - col.len()) as nat) + col
    } else {
        repeat(e, ((total_height - col.len()) as nat) / 2) + col
            + repeat(e, (((total_height - col.len()) as nat + 1) / 2) as nat)
    };
    let mut result: PixelMap = Vec::new();
    let mut x: usize = 0;
    while x < content.len()
        invariant
            x <= content.len(),
            c == grid(&content),
            e == empty@,
            valign != VerticalAlignment::Top,
            forall|i: int| 0 <= i < c.len() ==> #[trigger] c[i].len() <= total_height,
            f == (|col: Seq<PixelView>| if valign == VerticalAlignment::Bottom {
                repeat(e, (total_height - col.len()) as nat) + col
            } else {
                repeat(e, ((total_height - col.len()) as nat) / 2) + col
                    + repeat(e, (((total_height - col.len()) as nat + 1) / 2) as nat)
            }),
            grid(&result) == c.subrange(0, x as int).map_values(f),
            result@.len() == x,
        decreases content.len() - x,
    {
        assert(c[x as int].len() == content@[x as int]@.len());
        let k = total_height - content[x].len();
        let col = match valign {
            VerticalAlignment::Bottom => surround_column(&empty, k, &content[x], 0),
            _ => surround_column(&empty, k / 2, &content[x], k - k / 2),
        };
        assert(k - k / 2 == (k + 1) / 2);
        assert(column(col@) =~= f(c[x as int]));
        let ghost old_res = result@;
        let ghost cv = col;
        result.push(col);
        proof { lemma_grid_push(old_res, cv); }
        x = x + 1;
        assert(grid(&result) =~= c.subrange(0, x as int).map_values(f));
    }
    assert(c.subrange(0, x as int) =~= c);
    let offset = if let VerticalAlignment::Bottom = valign {
        total_height - content[0].len()
    } else {
        (total_height - content[0].len()) / 2
    };
    assert(grid(&result) =~= aligned_vertically(c, valign, total_height as nat, e).0);
    (result, offset)
}

} // verus!
