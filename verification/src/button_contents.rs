//! Drawing a button: its formatted text wrapped to its width, centered, framed and padded.
use vstd::prelude::*;
use crate::pixel::{Color, Pixel, PixelMap, PixelView, grid, column, lemma_grid_push, lemma_column_push};
use crate::definitions::{HorizontalAlignment, VerticalAlignment, StateSize};
use crate::scheduler::EzProperty;
use crate::geometry::{effective_size_of, outer_length};
use crate::helpers::{add_border, add_padding, align_content_horizontally, align_content_vertically,
    aligned_horizontally, aligned_vertically, filler_columns, first_height, fits_vertically, framed, padded,
    space_pixel};
use crate::layout::{max_height, largest_height, lemma_max_height};
use crate::button::ButtonState;
use crate::strings::{byte_len, string_of_char, utf8_len};
use crate::text::{extended_graphemes, format_run, format_text, palette_view};
use crate::wrap::{wrapped, wrap_text};
use crate::state::context_colors;

verus! {

/// The columns of wrapped lines: as many columns as the longest line, each `height` cells,
/// a line's pixel where the line reaches, the default pixel elsewhere.
pub open spec fn text_columns(lines: Seq<Seq<PixelView>>, height: nat, e: PixelView) -> Seq<Seq<PixelView>> {
    Seq::new(max_height(lines), |x: int| Seq::new(height, |y: int|
        if y < lines.len() && x < lines[y].len() { lines[y][x] } else { e }))
}

/// Lay wrapped lines out as columns (see [`text_columns`]).
pub fn lines_to_columns(lines: &Vec<Vec<Pixel>>, height: usize, e: &Pixel) -> (r: PixelMap)
    ensures
        grid(&r) == text_columns(grid(lines), height as nat, e@),
{
    let longest = largest_height(lines);
    let ghost goal = text_columns(grid(lines), height as nat, e@);
    let mut result: PixelMap = Vec::new();
    let mut x: usize = 0;
    while x < longest
        invariant
            x <= longest,
            longest as nat == max_height(grid(lines)),
            goal == text_columns(grid(lines), height as nat, e@),
            grid(&result) == goal.take(x as int),
        decreases longest - x,
    {
        let mut col: Vec<Pixel> = Vec::new();
        let mut y: usize = 0;
        while y < height
            invariant
                y <= height,
                x < longest,
                longest as nat == max_height(grid(lines)),
                goal == text_columns(grid(lines), height as nat, e@),
                column(col@) == goal[x as int].take(y as int),
            decreases height - y,
        {
            let p = if y < lines.len() && x < lines[y].len() { lines[y][x].duplicate() } else { e.duplicate() };
            let ghost before = col@;
            col.push(p);
            proof {
                lemma_column_push(before, p);
                if y < lines@.len() {
                    assert(grid(lines)[y as int] == column(lines@[y as int]@));
                }
                assert(column(col@) =~= goal[x as int].take(y + 1));
            }
            y = y + 1;
        }
        assert(goal[x as int].take(height as int) =~= goal[x as int]);
        let ghost old_res = result@;
        let ghost cv = col;
        result.push(col);
        proof { lemma_grid_push(old_res, cv); }
        x = x + 1;
        assert(grid(&result) =~= goal.take(x as int));
    }
    assert(goal.take(longest as int) =~= goal);
    result
}

/// The colors a button draws its text in.
pub open spec fn button_colors(s: ButtonState) -> (Color, Color) {
    if s.flashing { (s.colors.flash_fg_color.value, s.colors.flash_bg_color.value) }
    else { context_colors(s.disabled.value, s.selected, s.colors) }
}

/// The width a button wraps its text to: its text's byte length plus one when it follows
/// its content or may grow without bound, else its effective width.
pub open spec fn button_write_width(s: ButtonState) -> nat {
    if s.infinite_size.width || s.auto_scale.auto_scale_width.value {
        utf8_len(s.text@) + 1
    } else {
        effective_size_of(s.size, s.border_config, s.padding).width as nat
    }
}

/// The wrapped lines of a button's formatted text; `None` when a color tag names no color
/// of the palette or the pixels run out while wrapping.
pub open spec fn button_lines(s: ButtonState, palette: Seq<(Seq<char>, Color)>) -> Option<Seq<Seq<PixelView>>> {
    let run = format_run(extended_graphemes(s.text@),
        space_pixel(button_colors(s).0, button_colors(s).1), palette);
    if run.failed { None } else { wrapped(run.text, run.pixels, button_write_width(s)) }
}

/// The number of rows a button writes: one per line when it follows its content or may
/// grow without bound, else its effective height.
pub open spec fn button_write_height(s: ButtonState, lines: Seq<Seq<PixelView>>) -> nat {
    if s.infinite_size.height || s.auto_scale.auto_scale_height.value {
        lines.len()
    } else {
        effective_size_of(s.size, s.border_config, s.padding).height as nat
    }
}

/// A button's size once it followed its content: as wide as its columns and as high as its
/// rows where it follows its content on that axis.
pub open spec fn button_size_after(s: ButtonState, cols: Seq<Seq<PixelView>>) -> StateSize {
    StateSize {
        width: EzProperty { name: s.size.width.name, value: if s.auto_scale.auto_scale_width.value {
            outer_length(cols.len(), s.border_config.border.value, s.padding.padding_left.value as nat,
                s.padding.padding_right.value as nat) as usize } else { s.size.width.value } },
        height: EzProperty { name: s.size.height.name, value: if s.auto_scale.auto_scale_height.value {
            outer_length(first_height(cols), s.border_config.border.value, s.padding.padding_top.value as nat,
                s.padding.padding_bottom.value as nat) as usize } else { s.size.height.value } },
    }
}

/// Whether a button's size can follow its content without overflow.
pub open spec fn button_size_fits(s: ButtonState, cols: Seq<Seq<PixelView>>) -> bool {
    &&& s.auto_scale.auto_scale_width.value ==> outer_length(cols.len(), s.border_config.border.value,
        s.padding.padding_left.value as nat, s.padding.padding_right.value as nat) <= usize::MAX
    &&& s.auto_scale.auto_scale_height.value ==> outer_length(first_height(cols), s.border_config.border.value,
        s.padding.padding_top.value as nat, s.padding.padding_bottom.value as nat) <= usize::MAX
}

/// What a button shows: its text columns centered both ways within its effective size
/// (after following its content), framed by its border, then padded in its parent's
/// colors.
pub open spec fn button_view(s: ButtonState, cols: Seq<Seq<PixelView>>, parent_fg: Color, parent_bg: Color)
    -> Seq<Seq<PixelView>> {
    let size = button_size_after(s, cols);
    let eff = effective_size_of(size, s.border_config, s.padding);
    let e = space_pixel(button_colors(s).0, button_colors(s).1);
    let h = aligned_horizontally(cols, HorizontalAlignment::Center, eff.width as nat, e).0;
    let v = aligned_vertically(h, VerticalAlignment::Middle, eff.height as nat, e).0;
    padded(framed(v, s.border_config, s.colors), s.padding.padding_top.value as nat,
        s.padding.padding_bottom.value as nat, s.padding.padding_left.value as nat,
        s.padding.padding_right.value as nat, space_pixel(parent_fg, parent_bg))
}

/// A button that follows its content ends up, inside its border and padding, exactly as wide
/// as its text columns and as high as they are.
pub proof fn lemma_button_follows_columns(s: ButtonState, cols: Seq<Seq<PixelView>>)
    requires
        button_size_fits(s, cols),
    ensures
        s.auto_scale.auto_scale_width.value ==> effective_size_of(button_size_after(s, cols), s.border_config,
            s.padding).width == cols.len(),
        s.auto_scale.auto_scale_height.value ==> effective_size_of(button_size_after(s, cols), s.border_config,
            s.padding).height == first_height(cols),
{
    crate::geometry::lemma_content_of_outer(cols.len(), s.border_config.border.value,
        s.padding.padding_left.value as nat, s.padding.padding_right.value as nat);
    crate::geometry::lemma_content_of_outer(first_height(cols), s.border_config.border.value,
        s.padding.padding_top.value as nat, s.padding.padding_bottom.value as nat);
}

/// Columns that are all `h` high stay so, or become all 0 high when there are none, when
/// aligned horizontally; either way they can be aligned vertically.
proof fn lemma_uniform_columns(c: Seq<Seq<PixelView>>, h: nat, total: nat, e: PixelView, vtotal: nat)
    requires
        forall|i: int| 0 <= i < c.len() ==> #[trigger] c[i].len() == h,
    ensures
        fits_vertically(aligned_horizontally(c, HorizontalAlignment::Center, total, e).0, vtotal),
{
    let a = aligned_horizontally(c, HorizontalAlignment::Center, total, e).0;
    let fh = first_height(c);
    if c.len() < total {
        let n = (total - c.len()) as nat;
        assert(a == filler_columns(e, fh, n / 2) + c + filler_columns(e, fh, ((n + 1) / 2) as nat));
        assert forall|i: int| 0 <= i < a.len() implies #[trigger] a[i].len() == fh by {
            if c.len() > 0 {
                assert(fh == h);
            }
        }
    }
}

/// Draw a button: format its text in its colors (flash colors while flashing), wrap it to
/// its width, lay the lines out as columns, let the button follow its content where it
/// auto-scales, center the columns both ways within its effective size, frame them with
/// its border and pad them in the parent's colors. Returns `None`, leaving the state as it
/// was, when a color tag names no color of `palette` or the pixels run out while wrapping.
pub fn get_button_contents(state: &mut ButtonState, palette: &Vec<(String, Color)>, parent_fg: Color,
    parent_bg: Color) -> (r: Option<PixelMap>)
    requires
        utf8_len(old(state).text@) < usize::MAX,
        button_lines(*old(state), palette_view(palette@)) matches Some(lines) ==> button_size_fits(*old(state),
            text_columns(lines, button_write_height(*old(state), lines),
                space_pixel(button_colors(*old(state)).0, button_colors(*old(state)).1))),
    ensures
        match button_lines(*old(state), palette_view(palette@)) {
            None => r is None && *final(state) == *old(state),
            Some(lines) => {
                let cols = text_columns(lines, button_write_height(*old(state), lines),
                    space_pixel(button_colors(*old(state)).0, button_colors(*old(state)).1));
                &&& r matches Some(m) && grid(&m) == button_view(*old(state), cols, parent_fg, parent_bg)
                &&& *final(state) == (ButtonState { size: button_size_after(*old(state), cols), ..*old(state) })
            },
        },
{
    let (fg, bg) = state.get_draw_colors();
    let ghost s0 = *state;
    let write_width = if state.infinite_size.width || state.auto_scale.auto_scale_width.value {
        byte_len(&state.text) + 1
    } else {
        state.get_effective_size().width
    };
    let default = Pixel::new(string_of_char(' '), fg, bg);
    let formatted = format_text(&state.text, &default, palette);
    let (text, pixels) = match formatted {
        None => { return None; },
        Some(tp) => tp,
    };
    let lines = match wrap_text(&text, write_width, &pixels) {
        None => { return None; },
        Some(l) => l,
    };
    let write_height = if state.infinite_size.height || state.auto_scale.auto_scale_height.value {
        lines.len()
    } else {
        state.get_effective_size().height
    };
    assert(grid(&lines).len() == lines@.len());
    let contents = lines_to_columns(&lines, write_height, &default);
    let ghost cols = grid(&contents);
    assert(cols == text_columns(grid(&lines), button_write_height(s0, grid(&lines)), default@));
    if state.auto_scale.auto_scale_width.value {
        state.set_effective_width(contents.len());
    }
    if state.auto_scale.auto_scale_height.value {
        let height = if contents.len() > 0 { contents[0].len() } else { 0 };
        proof {
            if contents@.len() > 0 {
                assert(cols[0] == column(contents@[0]@));
            }
        }
        state.set_effective_height(height);
    }
    assert(state.size == button_size_after(s0, cols));
    let eff = state.get_effective_size();
    let (h, _) = align_content_horizontally(contents, HorizontalAlignment::Center, eff.width,
        string_of_char(' '), fg, bg);
    proof {
        assert forall|i: int| 0 <= i < cols.len() implies #[trigger] cols[i].len() == write_height by {}
        lemma_uniform_columns(cols, write_height as nat, eff.width as nat, default@, eff.height as nat);
    }
    let (v, _) = align_content_vertically(h, VerticalAlignment::Middle, eff.height, string_of_char(' '), fg, bg);
    let framed_contents = add_border(v, &state.border_config, &state.colors);
    Some(add_padding(framed_contents, &state.padding, parent_bg, parent_fg))
}

} // verus!
