//! What the small widgets draw: checkboxes and radio buttons as a bracketed symbol, sliders
//! as a line with a knob, text inputs as their visible text with the cursor.
use vstd::prelude::*;
use crate::pixel::{Color, Pixel, PixelMap, PixelView, plain_pixel, grid, column, lemma_grid_push};
use crate::definitions::{BorderConfig, ColorConfig, Padding, StateSize};
use crate::helpers::{add_border, add_padding, framed, padded, space_pixel};
use crate::scheduler::EzProperty;
use crate::state::{context_colors, get_context_colors};
use crate::checkbox::CheckboxState;
use crate::radio_button::RadioButtonState;
use crate::slider::SliderState;
use crate::geometry::{effective_size_of, outer_length, outer_length_of};
use crate::text_input::TextInputState;
use crate::strings::{byte_count, byte_len, byte_slice, byte_substring, char_len, on_boundary, string_of_char};

verus! {

/// A one-row widget of five columns: an opening bracket, a space, the symbol, a space and a
/// closing bracket.
pub open spec fn toggle_columns(open: Seq<char>, symbol: Seq<char>, close: Seq<char>, fg: Color, bg: Color)
    -> Seq<Seq<PixelView>> {
    seq![seq![plain_pixel(open, fg, bg)], seq![plain_pixel(" "@, fg, bg)], seq![plain_pixel(symbol, fg, bg)],
        seq![plain_pixel(" "@, fg, bg)], seq![plain_pixel(close, fg, bg)]]
}

/// Content with its border when the widget has one, then the padding in the given colors.
pub open spec fn decorated(c: Seq<Seq<PixelView>>, border_config: BorderConfig, colors: ColorConfig,
    padding: Padding, pad_fg: Color, pad_bg: Color) -> Seq<Seq<PixelView>> {
    let with_border = if border_config.border.value { framed(c, border_config, colors) } else { c };
    padded(with_border, padding.padding_top.value as nat, padding.padding_bottom.value as nat,
        padding.padding_left.value as nat, padding.padding_right.value as nat, space_pixel(pad_fg, pad_bg))
}

/// A size of five columns by one row, keeping the property names.
pub open spec fn toggle_size(s: StateSize) -> StateSize {
    StateSize { width: EzProperty { name: s.width.name, value: 5 },
        height: EzProperty { name: s.height.name, value: 1 } }
}

/// The five columns of a toggle widget.
fn toggle_pixels(open: &str, symbol: &String, close: &str, fg: Color, bg: Color) -> (r: PixelMap)
    ensures
        grid(&r) == toggle_columns(open@, symbol@, close@, fg, bg),
{
    let r: PixelMap = vec![
        vec![Pixel::new(String::from_str(open), fg, bg)],
        vec![Pixel::new(String::from_str(" "), fg, bg)],
        vec![Pixel::new(symbol.clone(), fg, bg)],
        vec![Pixel::new(String::from_str(" "), fg, bg)],
        vec![Pixel::new(String::from_str(close), fg, bg)],
    ];
    assert(grid(&r) =~= toggle_columns(open@, symbol@, close@, fg, bg)) by {
        assert forall|i: int| 0 <= i < 5 implies #[trigger] grid(&r)[i] =~= toggle_columns(open@, symbol@,
            close@, fg, bg)[i] by {
            assert(grid(&r)[i] == column(r@[i]@));
        }
    }
    r
}

/// Draw a checkbox: `[ x ]` with the active or the inactive symbol in the colors of its
/// context (disabled, selected or normal), its border when it has one, then its padding in
/// its own colors. A checkbox is always five columns by one row.
pub fn get_checkbox_contents(state: &mut CheckboxState, active_symbol: &String, inactive_symbol: &String)
    -> (r: PixelMap)
    ensures
        *final(state) == (CheckboxState { size: toggle_size(old(state).size), ..*old(state) }),
        grid(&r) == decorated(toggle_columns("["@,
            if old(state).active.value { active_symbol@ } else { inactive_symbol@ }, "]"@,
            context_colors(old(state).disabled.value, old(state).selected, old(state).colors).0,
            context_colors(old(state).disabled.value, old(state).selected, old(state).colors).1),
            old(state).border_config, old(state).colors, old(state).padding,
            old(state).colors.fg_color.value, old(state).colors.bg_color.value),
{
    state.size.set_width(5);
    state.size.set_height(1);
    let symbol = if state.active.value { active_symbol } else { inactive_symbol };
    let (fg, bg) = state.get_context_colors();
    let mut contents = toggle_pixels("[", symbol, "]", fg, bg);
    if state.border_config.border.value {
        contents = add_border(contents, &state.border_config, &state.colors);
    }
    add_padding(contents, &state.padding, state.colors.bg_color.value, state.colors.fg_color.value)
}

/// Draw a radio button: `( x )` with the active or the inactive symbol in the colors of its
/// context (disabled, selected or normal), its border when it has one, then its padding in
/// the parent's colors. A radio button is always five columns by one row.
pub fn get_radio_button_contents(state: &mut RadioButtonState, active_symbol: &String,
    inactive_symbol: &String, parent_fg: Color, parent_bg: Color) -> (r: PixelMap)
    ensures
        *final(state) == (RadioButtonState { size: toggle_size(old(state).size), ..*old(state) }),
        grid(&r) == decorated(toggle_columns("("@,
            if old(state).active.value { active_symbol@ } else { inactive_symbol@ }, ")"@,
            context_colors(old(state).disabled.value, old(state).selected, old(state).colors).0,
            context_colors(old(state).disabled.value, old(state).selected, old(state).colors).1),
            old(state).border_config, old(state).colors, old(state).padding, parent_fg, parent_bg),
{
    state.size.set_width(5);
    state.size.set_height(1);
    let symbol = if state.active.value { active_symbol } else { inactive_symbol };
    let (fg, bg) = state.get_context_colors();
    let mut contents = toggle_pixels("(", symbol, ")", fg, bg);
    if state.border_config.border.value {
        contents = add_border(contents, &state.border_config, &state.colors);
    }
    add_padding(contents, &state.padding, parent_bg, parent_fg)
}

/// The symbol of column `x` of a slider whose knob is in column `value_pos`: the knob there,
/// a line elsewhere.
pub open spec fn slider_symbol(x: int, value_pos: nat) -> Seq<char> {
    if x == value_pos { "\u{1FB9A}"@ } else { "\u{2501}"@ }
}

/// The foreground color of column `x` of a slider: the disabled color when it is disabled,
/// the selection color on the knob of a selected slider, else its normal color.
pub open spec fn slider_fg(x: int, value_pos: nat, disabled: bool, selected: bool, colors: ColorConfig) -> Color {
    if disabled {
        colors.disabled_fg_color.value
    } else if x == value_pos && selected {
        colors.selection_fg_color.value
    } else {
        colors.fg_color.value
    }
}

/// The background color of a slider: the disabled color when it is disabled, else its normal
/// color.
pub open spec fn slider_bg(disabled: bool, colors: ColorConfig) -> Color {
    if disabled { colors.disabled_bg_color.value } else { colors.bg_color.value }
}

/// A slider's line: one row of `width` columns with the knob in column `value_pos`.
pub open spec fn slider_columns(width: nat, value_pos: nat, disabled: bool, selected: bool, colors: ColorConfig)
    -> Seq<Seq<PixelView>> {
    Seq::new(width, |x: int| seq![plain_pixel(slider_symbol(x, value_pos),
        slider_fg(x, value_pos, disabled, selected, colors), slider_bg(disabled, colors))])
}

/// A value raised to the minimum when below it, then lowered to the maximum when above it.
pub open spec fn bounded_value(value: usize, minimum: usize, maximum: usize) -> usize {
    let raised = if value < minimum { minimum } else { value };
    if raised > maximum { maximum } else { raised }
}

/// The number of steps between the minimum and the maximum of a slider, plus one: the width
/// a slider takes when it follows its content.
pub open spec fn slider_steps(s: SliderState) -> nat {
    ((s.maximum.value - s.minimum.value) / (s.step.value as int) + 1) as nat
}

/// A slider state about to be drawn: its value within its bounds, one row high for content,
/// and as wide as its steps when it follows its content.
pub open spec fn slider_sized(s: SliderState) -> SliderState {
    let height = outer_length(1, s.border_config.border.value, s.padding.padding_top.value as nat,
        s.padding.padding_bottom.value as nat) as usize;
    let width = if s.auto_scale.auto_scale_width.value {
        outer_length(slider_steps(s), s.border_config.border.value, s.padding.padding_left.value as nat,
            s.padding.padding_right.value as nat) as usize
    } else {
        s.size.width.value
    };
    SliderState {
        value: EzProperty { name: s.value.name, value: bounded_value(s.value.value, s.minimum.value,
            s.maximum.value) },
        size: StateSize { width: EzProperty { name: s.size.width.name, value: width },
            height: EzProperty { name: s.size.height.name, value: height } },
        ..s
    }
}

/// Whether a slider can be drawn without running out of range: its one row and, when it
/// follows its content, its steps fit in its size; and then its step is not zero and its
/// minimum is not above its maximum.
pub open spec fn slider_drawable(s: SliderState) -> bool {
    &&& outer_length(1, s.border_config.border.value, s.padding.padding_top.value as nat,
            s.padding.padding_bottom.value as nat) <= usize::MAX
    &&& s.auto_scale.auto_scale_width.value ==> {
            &&& s.step.value > 0
            &&& s.minimum.value <= s.maximum.value
            &&& outer_length(slider_steps(s), s.border_config.border.value, s.padding.padding_left.value as nat,
                    s.padding.padding_right.value as nat) <= usize::MAX
        }
}

/// Draw a slider: nothing when it has no room for content; otherwise its value is brought
/// within its bounds, its size set (see [`slider_sized`]), and it shows a line with the knob
/// in column `value_pos` (the effective width less one scaled by where the value lies between
/// the bounds), then its padding in the parent's colors.
pub fn get_slider_contents(state: &mut SliderState, value_pos: usize, parent_fg: Color, parent_bg: Color)
    -> (r: PixelMap)
    requires
        effective_size_of(old(state).size, old(state).border_config, old(state).padding).width > 0
            ==> slider_drawable(*old(state)),
    ensures
        effective_size_of(old(state).size, old(state).border_config, old(state).padding).width == 0 ==> {
            &&& *final(state) == *old(state)
            &&& r@.len() == 0
        },
        effective_size_of(old(state).size, old(state).border_config, old(state).padding).width > 0 ==> {
            &&& *final(state) == slider_sized(*old(state))
            &&& grid(&r) == padded(slider_columns(
                    effective_size_of(final(state).size, old(state).border_config, old(state).padding).width as nat,
                    value_pos as nat, old(state).disabled.value, old(state).selected, old(state).colors),
                    old(state).padding.padding_top.value as nat, old(state).padding.padding_bottom.value as nat,
                    old(state).padding.padding_left.value as nat, old(state).padding.padding_right.value as nat,
                    space_pixel(parent_fg, parent_bg))
        },
{
    if state.get_effective_size().width == 0 {
        return Vec::new();
    }
    if state.value.value < state.minimum.value {
        let m = state.minimum.value;
        state.set_value(m);
    }
    if state.value.value > state.maximum.value {
        let m = state.maximum.value;
        state.set_value(m);
    }
    state.set_effective_height(1);
    if state.auto_scale.auto_scale_width.value {
        let steps = (state.maximum.value - state.minimum.value) / state.step.value + 1;
        state.set_effective_width(steps);
    }
    assert(*state == slider_sized(*old(state)));
    let width = state.get_effective_size().width;
    let disabled = state.disabled.value;
    let selected = state.selected;
    let colors = &state.colors;
    let bg = if disabled { colors.disabled_bg_color.value } else { colors.bg_color.value };
    let mut contents: PixelMap = Vec::new();
    let mut x: usize = 0;
    while x < width
        invariant
            x <= width,
            bg == slider_bg(disabled, *colors),
            grid(&contents) == slider_columns(width as nat, value_pos as nat, disabled, selected, *colors)
                .take(x as int),
        decreases width - x,
    {
        let fg = if disabled {
            colors.disabled_fg_color.value
        } else if x == value_pos && selected {
            colors.selection_fg_color.value
        } else {
            colors.fg_color.value
        };
        let symbol = if x == value_pos { String::from_str("\u{1FB9A}") } else { String::from_str("\u{2501}") };
        let col = vec![Pixel::new(symbol, fg, bg)];
        let ghost before = contents@;
        let ghost c = col;
        assert(column(col@) =~= seq![plain_pixel(slider_symbol(x as int, value_pos as nat),
            slider_fg(x as int, value_pos as nat, disabled, selected, *colors), bg)]);
        contents.push(col);
        proof {
            lemma_grid_push(before, c);
        }
        x = x + 1;
        assert(grid(&contents) =~= slider_columns(width as nat, value_pos as nat, disabled, selected, *colors)
            .take(x as int));
    }
    assert(grid(&contents) =~= slider_columns(width as nat, value_pos as nat, disabled, selected, *colors));
    add_padding(contents, &state.padding, parent_bg, parent_fg)
}

/// The part of a text that a text input shows: all of it when it fits in the width less one
/// (the last column is kept for the cursor), else from the view start on, at most that many
/// bytes. The text is measured and cut in bytes of its UTF-8 encoding.
pub open spec fn visible_text(text: Seq<char>, view_start: nat, width: nat) -> Seq<char> {
    let len = byte_count(text);
    if len > width - 1 {
        byte_slice(text, view_start, visible_end(len, view_start, width))
    } else {
        text
    }
}

/// The byte at which the shown part of a text `len` bytes long ends.
pub open spec fn visible_end(len: nat, view_start: nat, width: nat) -> nat {
    if len - view_start > width - 1 { (view_start + width - 1) as nat } else { len }
}

/// An underlined pixel, as text inputs draw their text.
pub open spec fn input_pixel(symbol: Seq<char>, fg: Color, bg: Color) -> PixelView {
    PixelView { underline: true, ..plain_pixel(symbol, fg, bg) }
}

/// A text input's line: `width` columns of `rows` rows (one, or none where there is no room),
/// holding the characters of `text` and spaces after them; the column of the cursor has the
/// cursor color as background while the cursor blinks on.
pub open spec fn input_columns(text: Seq<char>, width: nat, rows: nat, fg: Color, bg: Color, cursor_bg: Color,
    blink_on: bool, cursor_x: nat) -> Seq<Seq<PixelView>> {
    Seq::new(width, |x: int| Seq::new(rows, |_y: int| input_pixel(
        if x < text.len() { seq![text[x]] } else { " "@ }, fg,
        if blink_on && x == cursor_x { cursor_bg } else { bg })))
}

/// The rows a text input writes its text in: one, unless its height is bounded and leaves
/// no room.
pub open spec fn input_rows(s: TextInputState) -> nat {
    if !s.infinite_size.height {
        if effective_size_of(s.size, s.border_config, s.padding).height >= 1 { 1 } else { 0 }
    } else {
        1
    }
}

/// A text input state about to be drawn: where it follows its content, as wide as its
/// content and one row high for content.
pub open spec fn input_sized(s: TextInputState) -> TextInputState {
    let width = if s.auto_scale.auto_scale_width.value {
        outer_length(effective_size_of(s.size, s.border_config, s.padding).width as nat, s.border_config.border.value,
            s.padding.padding_left.value as nat, s.padding.padding_right.value as nat) as usize
    } else {
        s.size.width.value
    };
    let height = if s.auto_scale.auto_scale_height.value {
        outer_length(1, s.border_config.border.value, s.padding.padding_top.value as nat,
            s.padding.padding_bottom.value as nat) as usize
    } else {
        s.size.height.value
    };
    TextInputState {
        size: StateSize { width: EzProperty { name: s.size.width.name, value: width },
            height: EzProperty { name: s.size.height.name, value: height } },
        ..s
    }
}

/// Draw a text input: the part of its text in view (see [`visible_text`]), underlined, in the
/// colors of its context, with the cursor column highlighted while the cursor blinks on;
/// its size follows its content where set (see [`input_sized`]); then its border when it has
/// one and its padding in the parent's colors.
pub fn get_text_input_contents(state: &mut TextInputState, parent_fg: Color, parent_bg: Color) -> (r: PixelMap)
    requires
        effective_size_of(old(state).size, old(state).border_config, old(state).padding).width >= 1,
        byte_count(old(state).text.value@) <= usize::MAX,
        ({
            let len = byte_count(old(state).text.value@);
            let width = effective_size_of(old(state).size, old(state).border_config, old(state).padding).width as nat;
            len > width - 1 ==> old(state).view_start <= len && on_boundary(old(state).text.value@,
                old(state).view_start as nat) && on_boundary(old(state).text.value@,
                visible_end(len, old(state).view_start as nat, width))
        }),
        old(state).auto_scale.auto_scale_height.value ==> outer_length(1, old(state).border_config.border.value,
            old(state).padding.padding_top.value as nat, old(state).padding.padding_bottom.value as nat)
            <= usize::MAX,
    ensures
        *final(state) == input_sized(*old(state)),
        ({
            let s = *old(state);
            let width = effective_size_of(s.size, s.border_config, s.padding).width as nat;
            let (fg, bg) = context_colors(s.disabled.value, s.selected, s.colors);
            grid(&r) == decorated(input_columns(visible_text(s.text.value@, s.view_start as nat, width), width,
                input_rows(s), fg, bg, s.colors.cursor_color.value, s.blink_switch, s.cursor_pos.x as nat),
                s.border_config, s.colors, s.padding, parent_fg, parent_bg)
        }),
{
    let ghost s = *old(state);
    let (fg, bg) = get_context_colors(state.disabled.value, state.selected, &state.colors);
    let size = state.get_effective_size();
    let width = size.width;
    let len = byte_len(&state.text.value);
    let text = if len > width - 1 {
        let remains = len - state.view_start;
        let view_end = if remains > width - 1 { state.view_start + (width - 1) } else { len };
        byte_substring(&state.text.value, state.view_start, view_end)
    } else {
        state.text.value.clone()
    };
    let ghost shown = visible_text(s.text.value@, s.view_start as nat, width as nat);
    assert(text@ == shown);
    let rows: usize = if !state.infinite_size.height { if size.height >= 1 { 1 } else { 0 } } else { 1 };
    let text_len = char_len(&text);
    let blink = state.blink_switch;
    let cursor_x = state.cursor_pos.x;
    let cursor_bg = state.colors.cursor_color.value;
    let ghost goal = input_columns(shown, width as nat, rows as nat, fg, bg, cursor_bg, blink, cursor_x as nat);
    let mut contents: PixelMap = Vec::new();
    let mut x: usize = 0;
    while x < width
        invariant
            x <= width,
            text@ == shown,
            text_len == shown.len(),
            goal == input_columns(shown, width as nat, rows as nat, fg, bg, cursor_bg, blink, cursor_x as nat),
            grid(&contents) == goal.take(x as int),
        decreases width - x,
    {
        let cell_bg = if blink && x == cursor_x { cursor_bg } else { bg };
        let mut col: Vec<Pixel> = Vec::new();
        let mut y: usize = 0;
        while y < rows
            invariant
                y <= rows,
                x < width,
                text@ == shown,
                text_len == shown.len(),
                goal == input_columns(shown, width as nat, rows as nat, fg, bg, cursor_bg, blink, cursor_x as nat),
                cell_bg == (if blink && x == cursor_x { cursor_bg } else { bg }),
                column(col@) =~= goal[x as int].take(y as int),
            decreases rows - y,
        {
            let symbol = if x < text_len { string_of_char(text.as_str().get_char(x)) } else { String::from_str(" ") };
            let p = Pixel { symbol, foreground_color: fg, background_color: cell_bg, underline: true, bold: false,
                italic: false, strike_through: false };
            assert(p@ == goal[x as int][y as int]);
            let ghost prev = col@;
            let ghost q = p;
            col.push(p);
            proof {
                crate::pixel::lemma_column_push(prev, q);
            }
            y = y + 1;
            assert(column(col@) =~= goal[x as int].take(y as int));
        }
        let ghost before = contents@;
        let ghost c = col;
        assert(column(col@) =~= goal[x as int]);
        contents.push(col);
        proof {
            lemma_grid_push(before, c);
        }
        x = x + 1;
        assert(grid(&contents) =~= goal.take(x as int));
    }
    assert(grid(&contents) =~= goal);
    if state.auto_scale.auto_scale_width.value {
        let w = outer_length_of(width, state.border_config.border.value, state.padding.padding_left.value,
            state.padding.padding_right.value);
        state.size.set_width(w);
    }
    if state.auto_scale.auto_scale_height.value {
        let h = outer_length_of(1, state.border_config.border.value, state.padding.padding_top.value,
            state.padding.padding_bottom.value);
        state.size.set_height(h);
    }
    assert(*state == input_sized(s));
    if state.border_config.border.value {
        contents = add_border(contents, &state.border_config, &state.colors);
    }
    add_padding(contents, &state.padding, parent_bg, parent_fg)
}

} // verus!
