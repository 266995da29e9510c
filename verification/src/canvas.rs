//! Canvas widgets that show text: the text is laid out line by line, one character per cell.
use vstd::prelude::*;
use crate::pixel::{Color, Pixel, PixelMap, PixelView, concat, grid, column, plain_pixel, lemma_grid_push,
    lemma_column_push};
use crate::scheduler::names;
use crate::text::{extended_graphemes, graphemes};
use crate::wrap::{chars_to_string, line_ranges, lines_of};
use crate::strings::string_of_char;

verus! {

/// The characters a canvas shows for a line of text, in order: for each grapheme cluster
/// of the line, in order, its characters from the last to the first.
pub open spec fn canvas_line(line: Seq<char>) -> Seq<char> {
    concat(extended_graphemes(line).map_values(|g: Seq<char>| g.reverse()))
}

/// The symbol of the cell at column `x`, row `y` of a canvas: the `x`-th character the
/// canvas shows for line `y`, or a space past its end.
pub open spec fn canvas_cell(lines: Seq<Seq<char>>, x: int, y: int) -> Seq<char> {
    if y < lines.len() && x < canvas_line(lines[y]).len() { seq![canvas_line(lines[y])[x]] } else { seq![' '] }
}

/// A canvas of `width` by `height` cells showing the lines of a text.
pub open spec fn canvas_columns(lines: Seq<Seq<char>>, width: nat, height: nat, fg: Color, bg: Color)
    -> Seq<Seq<PixelView>> {
    Seq::new(width, |x: int| Seq::new(height, |y: int| plain_pixel(canvas_cell(lines, x, y), fg, bg)))
}

/// The longest of some lines.
pub open spec fn longest_line(lines: Seq<Seq<char>>) -> nat
    decreases lines.len(),
{
    if lines.len() == 0 { 0 } else {
        let rest = longest_line(lines.drop_last());
        if lines.last().len() > rest { lines.last().len() } else { rest }
    }
}

/// The characters a canvas shows for a line (see [`canvas_line`]).
fn shown_line(cs: &Vec<char>, from: usize, to: usize) -> (r: Vec<char>)
    requires
        from <= to <= cs@.len(),
    ensures
        r@ == canvas_line(cs@.subrange(from as int, to as int)),
{
    let s = chars_to_string(cs, from, to);
    let gs = graphemes(&s);
    reversed_graphemes(&gs)
}

/// The characters a canvas shows for a run of graphemes: the characters of each grapheme in
/// reverse order, one grapheme after the other.
pub fn reversed_graphemes(gs: &Vec<String>) -> (r: Vec<char>)
    ensures
        r@ == concat(names(gs@).map_values(|g: Seq<char>| g.reverse())),
{
    let ghost rev = names(gs@).map_values(|g: Seq<char>| g.reverse());
    let mut out: Vec<char> = Vec::new();
    let mut k: usize = 0;
    assert(rev.take(0) =~= Seq::<Seq<char>>::empty());
    while k < gs.len()
        invariant
            k <= gs@.len(),
            rev == names(gs@).map_values(|g: Seq<char>| g.reverse()),
            out@ == concat(rev.take(k as int)),
        decreases gs@.len() - k,
    {
        let g = &gs[k];
        let n = g.as_str().unicode_len();
        let ghost before = out@;
        let mut j: usize = n;
        while j > 0
            invariant
                j <= n,
                n == g@.len(),
                out@ == before + g@.reverse().take((n - j) as int),
            decreases j,
        {
            out.push(g.as_str().get_char(j - 1));
            j = j - 1;
            assert(out@ =~= before + g@.reverse().take((n - j) as int));
        }
        assert(g@.reverse().take(n as int) =~= g@.reverse());
        assert(rev.take(k + 1).drop_last() =~= rev.take(k as int));
        assert(rev.take(k + 1).last() == gs@[k as int]@.reverse());
        k = k + 1;
    }
    assert(rev.take(gs@.len() as int) =~= rev);
    out
}

/// The characters shown for each line of a text (see [`canvas_line`]).
fn shown_lines_of(text: &String) -> (r: Vec<Vec<char>>)
    ensures
        r@.len() == lines_of(text@).len(),
        forall|t: int| 0 <= t < r@.len() ==> (#[trigger] r@[t])@ == canvas_line(lines_of(text@)[t]),
{
    let n = text.as_str().unicode_len();
    let mut cs: Vec<char> = Vec::new();
    let mut i: usize = 0;
    while i < n
        invariant
            i <= n,
            n == text@.len(),
            cs@ == text@.take(i as int),
        decreases n - i,
    {
        cs.push(text.as_str().get_char(i));
        i = i + 1;
        assert(cs@ =~= text@.take(i as int));
    }
    assert(cs@ =~= text@);
    assert(cs@.subrange(0, cs@.len() as int) =~= cs@);
    let ranges = line_ranges(&cs, 0, cs.len());
    let ghost lines = lines_of(text@);
    let mut shown: Vec<Vec<char>> = Vec::new();
    let mut k: usize = 0;
    while k < ranges.len()
        invariant
            k <= ranges@.len(),
            cs@ == text@,
            lines == lines_of(text@),
            ranges@.map_values(|p: (usize, usize)| cs@.subrange(p.0 as int, p.1 as int)) == lines,
            forall|t: int| 0 <= t < ranges@.len() ==> 0 <= (#[trigger] ranges@[t]).0 <= ranges@[t].1 <= cs@.len(),
            shown@.len() == k,
            forall|t: int| 0 <= t < k ==> (#[trigger] shown@[t])@ == canvas_line(lines[t]),
        decreases ranges@.len() - k,
    {
        let (from, to) = ranges[k];
        assert(lines[k as int] == cs@.subrange(from as int, to as int));
        let line = shown_line(&cs, from, to);
        shown.push(line);
        k = k + 1;
    }
    assert(lines.len() == ranges@.len());
    shown
}

/// Show a text on a canvas of `width` by `height` cells: row `y` holds the characters shown
/// for line `y` of the text (see [`canvas_line`]), and spaces past its end.
pub fn canvas_from_text(text: &String, width: usize, height: usize, fg: Color, bg: Color) -> (r: PixelMap)
    ensures
        grid(&r) == canvas_columns(lines_of(text@), width as nat, height as nat, fg, bg),
{
    let shown = shown_lines_of(text);
    let ghost lines = lines_of(text@);
    let ghost goal = canvas_columns(lines, width as nat, height as nat, fg, bg);
    let mut result: PixelMap = Vec::new();
    let mut x: usize = 0;
    while x < width
        invariant
            x <= width,
            shown@.len() == lines.len(),
            forall|t: int| 0 <= t < shown@.len() ==> (#[trigger] shown@[t])@ == canvas_line(lines[t]),
            goal == canvas_columns(lines, width as nat, height as nat, fg, bg),
            grid(&result) == goal.take(x as int),
        decreases width - x,
    {
        let mut col: Vec<Pixel> = Vec::new();
        let mut y: usize = 0;
        while y < height
            invariant
                y <= height,
                x < width,
                shown@.len() == lines.len(),
                forall|t: int| 0 <= t < shown@.len() ==> (#[trigger] shown@[t])@ == canvas_line(lines[t]),
                goal == canvas_columns(lines, width as nat, height as nat, fg, bg),
                column(col@) == goal[x as int].take(y as int),
            decreases height - y,
        {
            let symbol = if y < shown.len() && x < shown[y].len() { string_of_char(shown[y][x]) }
                else { string_of_char(' ') };
            let p = Pixel::new(symbol, fg, bg);
            let ghost before = col@;
            col.push(p);
            proof {
                lemma_column_push(before, p);
                assert(column(col@) =~= goal[x as int].take(y + 1));
            }
            y = y + 1;
        }
        assert(goal[x as int].take(height as int) =~= goal[x as int]);
        let ghost old_res = result@;
        let ghost cv = col;
        result.push(col);
        proof { lemma_grid_push(old_res, cv); }
        x = x + 1;
        assert(grid(&result) =~= goal.take(x as int));
    }
    assert(goal.take(width as int) =~= goal);
    result
}

/// The lines a canvas shows for a text: the characters shown for each line.
pub open spec fn shown_lines(text: Seq<char>) -> Seq<Seq<char>> {
    lines_of(text).map_values(|l: Seq<char>| canvas_line(l))
}

/// The size a canvas that follows its content takes on each axis where it does: the longest
/// shown line across and the number of lines down, when that is smaller than its effective
/// size or it may grow without bound; otherwise it keeps its effective size.
pub open spec fn canvas_auto_size(text: Seq<char>, auto_scale_width: bool, auto_scale_height: bool,
    infinite_width: bool, infinite_height: bool, width: nat, height: nat) -> (nat, nat) {
    let w = longest_line(shown_lines(text));
    let h = lines_of(text).len();
    (if auto_scale_width && (w < width || infinite_width) { w } else { width },
     if auto_scale_height && (h < height || infinite_height) { h } else { height })
}

/// The size a canvas showing a text takes (see [`canvas_auto_size`]).
pub fn get_canvas_auto_size(text: &String, auto_scale_width: bool, auto_scale_height: bool,
    infinite_width: bool, infinite_height: bool, width: usize, height: usize) -> (r: (usize, usize))
    ensures
        (r.0 as nat, r.1 as nat) == canvas_auto_size(text@, auto_scale_width, auto_scale_height,
            infinite_width, infinite_height, width as nat, height as nat),
{
    let shown = shown_lines_of(text);
    let ghost view = shown_lines(text@);
    let mut longest: usize = 0;
    let mut i: usize = 0;
    while i < shown.len()
        invariant
            i <= shown@.len(),
            view == shown_lines(text@),
            view.len() == shown@.len(),
            forall|t: int| 0 <= t < shown@.len() ==> (#[trigger] shown@[t])@ == view[t],
            longest as nat == longest_line(view.take(i as int)),
        decreases shown@.len() - i,
    {
        assert(view.take(i + 1).drop_last() =~= view.take(i as int));
        assert(view.take(i + 1).last() == shown@[i as int]@);
        if shown[i].len() > longest {
            longest = shown[i].len();
        }
        i = i + 1;
    }
    assert(view.take(shown@.len() as int) =~= view);
    let lines = shown.len();
    (if auto_scale_width && (longest < width || infinite_width) { longest } else { width },
     if auto_scale_height && (lines < height || infinite_height) { lines } else { height })
}

/// With grapheme clusters of single characters, a canvas shows a line as it is.
pub proof fn lemma_single_characters_shown_as_is(gs: Seq<Seq<char>>)
    requires
        forall|i: int| 0 <= i < gs.len() ==> (#[trigger] gs[i]).len() == 1,
    ensures
        concat(gs.map_values(|g: Seq<char>| g.reverse())) == concat(gs),
    decreases gs.len(),
{
    if gs.len() > 0 {
        lemma_single_characters_shown_as_is(gs.drop_last());
        assert(gs.map_values(|g: Seq<char>| g.reverse()).drop_last()
            =~= gs.drop_last().map_values(|g: Seq<char>| g.reverse()));
        assert(gs.last().reverse() =~= gs.last());
    }
}

} // verus!
