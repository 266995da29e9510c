//! Text input widget state and the keyboard handling that edits its text: inserting a
//! character, deleting, backspacing, and moving the cursor and the visible part of the text.
use vstd::prelude::*;
use crate::pixel::{Color, Coordinates, IsizeCoordinates, Size};
use crate::scheduler::{EzProperty, SchedulerFrontend, join_name};
use crate::definitions::{StateCoordinates, StateSize, InfiniteSize, AutoScale, Padding,
    HorizontalAlignment, VerticalAlignment, BorderConfig, ColorConfig, registered_names,
    new_coordinates, new_size, new_auto_scale, new_padding, new_border, new_colors};
use crate::geometry::{effective_size_of, get_effective_size};
use crate::strings::{string_of_char, byte_len, byte_substring, concat2, concat3, is_empty_string,
    byte_count, byte_slice, on_boundary, char_bytes, chars_in_bytes, lemma_byte_slice, lemma_byte_slice_all,
    lemma_byte_slices_join, lemma_byte_count_concat, lemma_byte_count_empty, lemma_byte_count_single,
    lemma_chars_in_all_bytes, lemma_chars_in_bytes, lemma_chars_in_bytes_after, lemma_chars_in_bytes_next,
    lemma_chars_in_bytes_prefix};

verus! {

/// The smaller of two numbers.
pub open spec fn min_nat(a: nat, b: nat) -> nat {
    if a <= b { a } else { b }
}

/// The parts of a text before, inside and after a view that starts at byte `view_start`
/// and shows `width - 1` bytes; the text is sliced by bytes of its UTF-8 encoding.
pub open spec fn view_parts(text: Seq<char>, view_start: nat, width: nat) -> (Seq<char>, Seq<char>, Seq<char>) {
    let len = byte_count(text);
    let end = min_nat(len, (view_start + width - 1) as nat);
    (byte_slice(text, 0, view_start), byte_slice(text, view_start, end), byte_slice(text, end, len))
}

/// Whether the view of a text can be cut out: it starts within the text and both its ends
/// fall on character boundaries.
pub open spec fn view_defined(text: Seq<char>, view_start: nat, width: nat) -> bool {
    let len = byte_count(text);
    &&& view_start <= len
    &&& on_boundary(text, view_start)
    &&& on_boundary(text, min_nat(len, (view_start + width - 1) as nat))
}

/// The three parts of a view make up the whole text, and take the bytes before the view
/// start, in the view, and after it.
pub proof fn lemma_view_parts_concat(text: Seq<char>, view_start: nat, width: nat)
    requires
        view_defined(text, view_start, width),
        width >= 2,
    ensures
        ({
            let (pre, view, post) = view_parts(text, view_start, width);
            let end = min_nat(byte_count(text), (view_start + width - 1) as nat);
            &&& pre + view + post == text
            &&& byte_count(pre) == view_start
            &&& byte_count(view) == end - view_start
            &&& byte_count(post) == byte_count(text) - end
            &&& byte_count(view) <= width - 1
        }),
{
    let len = byte_count(text);
    let end = min_nat(len, (view_start + width - 1) as nat);
    lemma_byte_slice_all(text);
    lemma_byte_slice(text, 0, view_start);
    lemma_byte_slice(text, view_start, end);
    lemma_byte_slice(text, end, len);
    lemma_byte_slices_join(text, 0, view_start, end);
    lemma_byte_slices_join(text, 0, end, len);
}

/// Given a view, return which parts of the widget text are visible, together with the part
/// before and the part after the view. The text is sliced by bytes.
pub fn get_view_parts(text: String, view_start: usize, widget_with: usize) -> (r: (String, String, String))
    requires
        view_defined(text@, view_start as nat, widget_with as nat),
        byte_count(text@) <= usize::MAX,
        widget_with >= 2,
    ensures
        (r.0@, r.1@, r.2@) == view_parts(text@, view_start as nat, widget_with as nat),
{
    let len = byte_len(&text);
    proof {
        lemma_byte_slice_all(text@);
    }
    let end = if len - view_start <= widget_with - 1 { len } else { view_start + (widget_with - 1) };
    let pre_view_text = if view_start == 0 { String::new() } else { byte_substring(&text, 0, view_start) };
    let view_text = if len - view_start <= widget_with - 2 {
        byte_substring(&text, view_start, len)
    } else {
        byte_substring(&text, view_start, view_start + (widget_with - 1))
    };
    let post_view_text = if len - view_start <= widget_with - 1 {
        String::new()
    } else {
        byte_substring(&text, view_start + (widget_with - 1), len)
    };
    proof {
        lemma_byte_slice(text@, 0, view_start as nat);
        lemma_byte_slice(text@, end as nat, len as nat);
        assert(byte_slice(text@, 0, 0) =~= Seq::<char>::empty());
        assert(byte_slice(text@, len as nat, len as nat) =~= Seq::<char>::empty());
    }
    assert(pre_view_text@ =~= view_parts(text@, view_start as nat, widget_with as nat).0);
    assert(post_view_text@ =~= view_parts(text@, view_start as nat, widget_with as nat).2);
    (pre_view_text, view_text, post_view_text)
}

/// The editable part of a text input: its text, the cursor column within the widget and the
/// byte the view starts at. The cursor column is also the byte of the view it stands at.
pub struct TextField {
    pub text: Seq<char>,
    pub cursor: nat,
    pub view_start: nat,
}

/// The text field after typing `c` into a widget `width` wide that holds at most `max`
/// bytes. A full text is left unchanged. A text that fits gets `c` at the cursor and the
/// cursor (or, at the right edge, the view) moves right by one; a text that does not fit
/// gets `c` inserted at the cursor within the view and the view moves on at the right edge.
/// Texts are measured and cut in bytes.
pub open spec fn char_step(f: TextField, c: char, width: nat, max: nat) -> TextField {
    let len = byte_count(f.text);
    if len >= max {
        f
    } else if len < width - 1 {
        let text = byte_slice(f.text, 0, f.cursor) + seq![c] + byte_slice(f.text, f.cursor, len);
        if f.cursor < width - 1 {
            TextField { text, cursor: f.cursor + 1, view_start: f.view_start }
        } else {
            TextField { text, cursor: f.cursor, view_start: f.view_start + 1 }
        }
    } else {
        let (pre, view, post) = view_parts(f.text, f.view_start, width);
        let vlen = byte_count(view);
        let k = min_nat(f.cursor, vlen);
        let new_view = if f.cursor < width - 1 {
            byte_slice(view, 0, k) + seq![c] + byte_slice(view, k, vlen)
        } else {
            view + seq![c]
        };
        let text = pre + new_view + post;
        if f.cursor < width - 1 {
            TextField { text, cursor: f.cursor + 1, view_start: f.view_start }
        } else {
            TextField { text, cursor: (f.cursor - 1) as nat, view_start: f.view_start + 2 }
        }
    }
}

/// Whether typing a character can be handled: the widget is at least one column wide, the
/// cursor lies within a text that fits, on a character boundary, and a text that does not
/// fit has a view that can be cut out in a widget of at least two columns, with the cursor
/// on a boundary of the view.
pub open spec fn char_defined(f: TextField, width: nat, max: nat) -> bool {
    let len = byte_count(f.text);
    &&& len <= usize::MAX
    &&& len < max ==> {
        &&& width >= 1
        &&& len < width - 1 ==> f.cursor <= len && on_boundary(f.text, f.cursor)
        &&& len >= width - 1 ==> {
                let view = view_parts(f.text, f.view_start, width).1;
                &&& width >= 2
                &&& view_defined(f.text, f.view_start, width)
                &&& f.cursor < width - 1 ==> on_boundary(view, min_nat(f.cursor, byte_count(view)))
            }
        &&& f.cursor + 1 <= usize::MAX
        &&& f.view_start + 2 <= usize::MAX
    }
}

/// The text field after a right arrow press: the cursor moves right within the text, or at
/// the right edge of a text that does not fit the view moves on (by four bytes, or to the
/// end of the text).
pub open spec fn right_step(f: TextField, width: nat) -> TextField {
    let len = byte_count(f.text);
    if len > width - 1 && f.cursor >= width - 2 && len - f.view_start > width - 1 {
        if len - f.view_start - width >= 4 {
            TextField { text: f.text, cursor: (f.cursor - 3) as nat, view_start: f.view_start + 4 }
        } else {
            TextField { text: f.text, cursor: (f.cursor - 1) as nat,
                view_start: (len - width + 1) as nat }
        }
    } else if len > width - 1 && f.cursor == width - 1 {
        f
    } else if f.cursor < len {
        TextField { text: f.text, cursor: f.cursor + 1, view_start: f.view_start }
    } else {
        f
    }
}

/// Whether a right arrow press can be handled without running out of range.
pub open spec fn right_defined(f: TextField, width: nat) -> bool {
    let len = byte_count(f.text);
    &&& len <= usize::MAX
    &&& width >= 1
    &&& len > width - 1 ==> width >= 2
    &&& len > width - 1 && f.cursor >= width - 2 ==> f.view_start <= len
    &&& (len > width - 1 && f.cursor >= width - 2 && len - f.view_start > width - 1) ==> {
            &&& len - f.view_start - width >= 4 ==> f.cursor >= 3 && f.view_start + 4 <= usize::MAX
            &&& len - f.view_start - width < 4 ==> f.cursor >= 1
        }
    &&& f.cursor + 1 <= usize::MAX
}

/// The text field after a left arrow press: at the left edge of a text that does not fit,
/// the view moves back (by four bytes, or to the start); otherwise the cursor moves left if
/// it can.
pub open spec fn left_step(f: TextField, width: nat) -> TextField {
    let len = byte_count(f.text);
    if len > width - 1 && f.cursor <= 1 && f.view_start > 0 {
        if f.view_start >= 4 {
            TextField { text: f.text, cursor: f.cursor + 4, view_start: (f.view_start - 4) as nat }
        } else {
            TextField { text: f.text, cursor: 4, view_start: 0 }
        }
    } else if f.cursor > 0 {
        TextField { text: f.text, cursor: (f.cursor - 1) as nat, view_start: f.view_start }
    } else {
        f
    }
}

/// Whether a left arrow press can be handled without running out of range.
pub open spec fn left_defined(f: TextField, width: nat) -> bool {
    &&& byte_count(f.text) <= usize::MAX
    &&& width >= 1
    &&& f.cursor + 4 <= usize::MAX
}

/// The text field after a delete press, or `None` when there is nothing to delete: the
/// byte right of the cursor goes, within the view or just after it.
pub open spec fn delete_step(f: TextField, width: nat) -> Option<TextField> {
    let len = byte_count(f.text);
    if len > width - 1 {
        let (pre, view, post) = view_parts(f.text, f.view_start, width);
        let vlen = byte_count(view);
        if f.cursor == width - 1 && post.len() == 0 {
            None
        } else if f.cursor > vlen - 1 {
            if post.len() > 0 {
                Some(TextField { text: pre + view + byte_slice(post, 1, byte_count(post)), ..f })
            } else {
                None
            }
        } else {
            let v = byte_slice(view, 0, f.cursor) + byte_slice(view, f.cursor + 1, vlen);
            Some(TextField { text: pre + v + post, ..f })
        }
    } else if f.cursor == len {
        None
    } else {
        Some(TextField { text: byte_slice(f.text, 0, f.cursor) + byte_slice(f.text, f.cursor + 1, len), ..f })
    }
}

/// Whether a delete press can be handled: nothing runs out of range and every cut falls on
/// a character boundary.
pub open spec fn delete_defined(f: TextField, width: nat) -> bool {
    let len = byte_count(f.text);
    &&& len <= usize::MAX
    &&& width >= 1
    &&& len > width - 1 ==> {
            let (pre, view, post) = view_parts(f.text, f.view_start, width);
            let vlen = byte_count(view);
            &&& width >= 2
            &&& view_defined(f.text, f.view_start, width)
            &&& !(f.cursor == width - 1 && post.len() == 0) ==> {
                    &&& vlen >= 1
                    &&& f.cursor > vlen - 1 && post.len() > 0 ==> on_boundary(post, 1)
                    &&& f.cursor <= vlen - 1 ==> on_boundary(view, f.cursor) && on_boundary(view, f.cursor + 1)
                }
        }
    &&& len <= width - 1 ==> f.cursor <= len
    &&& len <= width - 1 && f.cursor < len ==> on_boundary(f.text, f.cursor) && on_boundary(f.text, f.cursor + 1)
}

/// The text field after a backspace press, or `None` when there is nothing to delete: the
/// byte left of the cursor goes (from the view, or just before it), and the view and
/// cursor move back where needed.
pub open spec fn backspace_step(f: TextField, width: nat) -> Option<TextField> {
    let len = byte_count(f.text);
    if len > width - 1 {
        if f.cursor == 0 && f.view_start == 0 {
            None
        } else {
            let (pre0, view0, post) = view_parts(f.text, f.view_start, width);
            let pre = if f.cursor == 0 { byte_slice(pre0, 0, (byte_count(pre0) - 1) as nat) } else { pre0 };
            let view = if f.cursor == 0 { view0 } else {
                byte_slice(view0, 0, (f.cursor - 1) as nat) + byte_slice(view0, f.cursor, byte_count(view0))
            };
            let vs1 = if f.view_start > 1 && post.len() == 0 { (f.view_start - 1) as nat } else { f.view_start };
            let vs2 = if vs1 > 1 && f.cursor == 0 && pre.len() > 0 { (vs1 - 1) as nat } else { vs1 };
            let cursor = if (f.cursor > 0 && pre.len() == 0) || (f.cursor == width - 1 && post.len() > 0) {
                (f.cursor - 1) as nat
            } else {
                f.cursor
            };
            Some(TextField { text: pre + view + post, cursor, view_start: vs2 })
        }
    } else if f.cursor == 0 {
        None
    } else {
        Some(TextField {
            text: byte_slice(f.text, 0, (f.cursor - 1) as nat) + byte_slice(f.text, f.cursor, len),
            cursor: (f.cursor - 1) as nat,
            view_start: f.view_start,
        })
    }
}

/// Whether a backspace press can be handled: nothing runs out of range and every cut falls
/// on a character boundary.
pub open spec fn backspace_defined(f: TextField, width: nat) -> bool {
    let len = byte_count(f.text);
    &&& len <= usize::MAX
    &&& width >= 1
    &&& len > width - 1 && !(f.cursor == 0 && f.view_start == 0) ==> {
            let (pre, view, post) = view_parts(f.text, f.view_start, width);
            &&& width >= 2
            &&& view_defined(f.text, f.view_start, width)
            &&& f.cursor <= byte_count(view)
            &&& f.cursor == 0 ==> on_boundary(pre, (byte_count(pre) - 1) as nat)
            &&& f.cursor > 0 ==> on_boundary(view, (f.cursor - 1) as nat) && on_boundary(view, f.cursor)
        }
    &&& len <= width - 1 ==> f.cursor <= len
    &&& len <= width - 1 && f.cursor > 0 ==> on_boundary(f.text, (f.cursor - 1) as nat) && on_boundary(f.text, f.cursor)
}

/// Runtime state of a text input widget.
#[derive(Clone, Debug)]
pub struct TextInputState {
    /// Path of the widget this state belongs to.
    pub path: String,
    /// Position relative to the parent layout.
    pub position: StateCoordinates,
    /// Absolute position on screen.
    pub absolute_position: IsizeCoordinates,
    /// Size of the widget.
    pub size: StateSize,
    /// Whether the widget may grow without bound on each axis.
    pub infinite_size: InfiniteSize,
    /// Whether the size follows the content.
    pub auto_scale: AutoScale,
    /// Space left around the widget.
    pub padding: Padding,
    /// Horizontal alignment.
    pub halign: EzProperty<HorizontalAlignment>,
    /// Vertical alignment.
    pub valign: EzProperty<VerticalAlignment>,
    /// Whether the widget cannot be interacted with.
    pub disabled: EzProperty<bool>,
    /// Order in which the widget is selected by keyboard.
    pub selection_order: EzProperty<usize>,
    /// The text in the input.
    pub text: EzProperty<String>,
    /// Maximum length of the text, in bytes.
    pub max_length: EzProperty<usize>,
    /// Border of the widget.
    pub border_config: BorderConfig,
    /// Colors of the widget.
    pub colors: ColorConfig,
    /// Whether the widget is selected.
    pub selected: bool,
    /// Position of the cursor within the widget.
    pub cursor_pos: Coordinates,
    /// Whether a task is blinking the cursor.
    pub active_blink_task: bool,
    /// Whether the cursor is currently shown.
    pub blink_switch: bool,
    /// Byte of the text at which the shown part starts.
    pub view_start: usize,
}

impl TextInputState {
    /// A state for the widget at `path`, registering its properties under that path.
    pub fn new(path: String, scheduler: &mut SchedulerFrontend) -> (r: TextInputState)
        ensures
            r.path == path,
            r.position.x.value == 0,
            r.position.y.value == 0,
            r.position.x.name@ == path@ + "/x"@,
            r.position.y.name@ == path@ + "/y"@,
            r.absolute_position == (IsizeCoordinates { x: 0, y: 0 }),
            r.size.width.value == 0,
            r.size.height.value == 0,
            r.size.width.name@ == path@ + "/width"@,
            r.size.height.name@ == path@ + "/height"@,
            r.infinite_size == (InfiniteSize { width: false, height: false }),
            r.auto_scale.auto_scale_width.value == false,
            r.auto_scale.auto_scale_height.value == false,
            r.padding.padding_top.value == 0,
            r.padding.padding_bottom.value == 0,
            r.padding.padding_left.value == 0,
            r.padding.padding_right.value == 0,
            r.halign.value == HorizontalAlignment::Left,
            r.halign.name@ == path@ + "/halign"@,
            r.valign.value == VerticalAlignment::Top,
            r.valign.name@ == path@ + "/valign"@,
            r.disabled.value == false,
            r.disabled.name@ == path@ + "/disabled"@,
            r.selection_order.value == 0,
            r.selection_order.name@ == path@ + "/selection_order"@,
            r.text.value@ == Seq::<char>::empty(),
            r.text.name@ == path@ + "/text"@,
            r.max_length.value == 0,
            r.max_length.name@ == path@ + "/max_length"@,
            r.border_config.border.value == false,
            !r.selected,
            r.cursor_pos == (Coordinates { x: 0, y: 0 }),
            !r.active_blink_task,
            !r.blink_switch,
            r.view_start == 0,
            r.colors.bg_color.value == Color::Blue,
            r.is_fresh(path),
            registered_names(*old(scheduler), *final(scheduler), r.property_names()),
    {
        let ghost start = *scheduler;
        let position: StateCoordinates = StateCoordinates::new(0, 0, path.clone(), scheduler);
        let absolute_position: IsizeCoordinates = IsizeCoordinates::new(0, 0);
        let size: StateSize = StateSize::new(0, 0, path.clone(), scheduler);
        let infinite_size: InfiniteSize = InfiniteSize { width: false, height: false };
        let auto_scale: AutoScale = AutoScale::new(false, false, path.clone(), scheduler);
        let padding: Padding = Padding::new(0, 0, 0, 0, path.clone(), scheduler);
        let halign: EzProperty<HorizontalAlignment> = scheduler.new_property(join_name(&path, "/halign"), HorizontalAlignment::Left);
        let valign: EzProperty<VerticalAlignment> = scheduler.new_property(join_name(&path, "/valign"), VerticalAlignment::Top);
        let disabled: EzProperty<bool> = scheduler.new_property(join_name(&path, "/disabled"), false);
        let selection_order: EzProperty<usize> = scheduler.new_property(join_name(&path, "/selection_order"), 0);
        let text: EzProperty<String> = scheduler.new_property(join_name(&path, "/text"), String::new());
        let max_length: EzProperty<usize> = scheduler.new_property(join_name(&path, "/max_length"), 0);
        let border_config: BorderConfig = BorderConfig::new(false, path.clone(), scheduler);
        let colors: ColorConfig = ColorConfig::new(path.clone(), scheduler);
        let selected: bool = false;
        let cursor_pos: Coordinates = Coordinates::new(0, 0);
        let active_blink_task: bool = false;
        let blink_switch: bool = false;
        let view_start: usize = 0;
        let mut colors = colors;
        colors.set_bg_color(Color::Blue);
        let r = TextInputState { path, position, absolute_position, size, infinite_size, auto_scale, padding, halign, valign, disabled, selection_order, text, max_length, border_config, colors, selected, cursor_pos, active_blink_task, blink_switch, view_start };
        assert(scheduler.properties@ =~= start.properties@ + seq![r.position.x.name, r.position.y.name, r.size.width.name, r.size.height.name, r.auto_scale.auto_scale_width.name, r.auto_scale.auto_scale_height.name, r.padding.padding_top.name, r.padding.padding_bottom.name, r.padding.padding_left.name, r.padding.padding_right.name, r.halign.name, r.valign.name, r.disabled.name, r.selection_order.name, r.text.name, r.max_length.name, r.border_config.border.name, r.border_config.horizontal_symbol.name, r.border_config.vertical_symbol.name, r.border_config.top_left_symbol.name, r.border_config.top_right_symbol.name, r.border_config.bottom_left_symbol.name, r.border_config.bottom_right_symbol.name, r.colors.fg_color.name, r.colors.bg_color.name, r.colors.selection_fg_color.name, r.colors.selection_bg_color.name, r.colors.disabled_fg_color.name, r.colors.disabled_bg_color.name, r.colors.active_fg_color.name, r.colors.active_bg_color.name, r.colors.flash_fg_color.name, r.colors.flash_bg_color.name, r.colors.tab_fg_color.name, r.colors.tab_bg_color.name, r.colors.tab_border_fg_color.name, r.colors.tab_border_bg_color.name, r.colors.filler_fg_color.name, r.colors.filler_bg_color.name, r.colors.border_fg_color.name, r.colors.border_bg_color.name, r.colors.cursor_color.name]);
        r
    }

    /// Whether this is the state [`TextInputState::new`] builds for the widget at `path`.
    pub open spec fn is_fresh(&self, path: String) -> bool {
        &&& self.path == path
        &&& self.position.x.value == 0
        &&& self.position.y.value == 0
        &&& self.position.x.name@ == path@ + "/x"@
        &&& self.position.y.name@ == path@ + "/y"@
        &&& new_coordinates(self.position, 0, 0, path@)
        &&& self.absolute_position == (IsizeCoordinates { x: 0, y: 0 })
        &&& self.size.width.value == 0
        &&& self.size.height.value == 0
        &&& self.size.width.name@ == path@ + "/width"@
        &&& self.size.height.name@ == path@ + "/height"@
        &&& new_size(self.size, 0, 0, path@)
        &&& self.infinite_size == (InfiniteSize { width: false, height: false })
        &&& self.auto_scale.auto_scale_width.value == false
        &&& self.auto_scale.auto_scale_height.value == false
        &&& new_auto_scale(self.auto_scale, false, false, path@)
        &&& self.padding.padding_top.value == 0
        &&& self.padding.padding_bottom.value == 0
        &&& self.padding.padding_left.value == 0
        &&& self.padding.padding_right.value == 0
        &&& new_padding(self.padding, 0, 0, 0, 0, path@)
        &&& self.halign.value == HorizontalAlignment::Left
        &&& self.halign.name@ == path@ + "/halign"@
        &&& self.valign.value == VerticalAlignment::Top
        &&& self.valign.name@ == path@ + "/valign"@
        &&& self.disabled.value == false
        &&& self.disabled.name@ == path@ + "/disabled"@
        &&& self.selection_order.value == 0
        &&& self.selection_order.name@ == path@ + "/selection_order"@
        &&& self.text.value@ == Seq::<char>::empty()
        &&& self.text.name@ == path@ + "/text"@
        &&& self.max_length.value == 0
        &&& self.max_length.name@ == path@ + "/max_length"@
        &&& self.border_config.border.value == false
        &&& new_border(self.border_config, false, path@)
        &&& new_colors(self.colors, path@, Color::Blue)
        &&& !self.selected
        &&& self.cursor_pos == (Coordinates { x: 0, y: 0 })
        &&& !self.active_blink_task
        &&& !self.blink_switch
        &&& self.view_start == 0
        &&& self.colors.bg_color.value == Color::Blue
    }

    /// The names of the properties of this state, in the order [`TextInputState::new`] registers them.
    pub open spec fn property_names(&self) -> Seq<String> {
        seq![self.position.x.name, self.position.y.name, self.size.width.name, self.size.height.name, self.auto_scale.auto_scale_width.name, self.auto_scale.auto_scale_height.name, self.padding.padding_top.name, self.padding.padding_bottom.name, self.padding.padding_left.name, self.padding.padding_right.name, self.halign.name, self.valign.name, self.disabled.name, self.selection_order.name, self.text.name, self.max_length.name, self.border_config.border.name, self.border_config.horizontal_symbol.name, self.border_config.vertical_symbol.name, self.border_config.top_left_symbol.name, self.border_config.top_right_symbol.name, self.border_config.bottom_left_symbol.name, self.border_config.bottom_right_symbol.name, self.colors.fg_color.name, self.colors.bg_color.name, self.colors.selection_fg_color.name, self.colors.selection_bg_color.name, self.colors.disabled_fg_color.name, self.colors.disabled_bg_color.name, self.colors.active_fg_color.name, self.colors.active_bg_color.name, self.colors.flash_fg_color.name, self.colors.flash_bg_color.name, self.colors.tab_fg_color.name, self.colors.tab_bg_color.name, self.colors.tab_border_fg_color.name, self.colors.tab_border_bg_color.name, self.colors.filler_fg_color.name, self.colors.filler_bg_color.name, self.colors.border_fg_color.name, self.colors.border_bg_color.name, self.colors.cursor_color.name]
    }
}


impl TextInputState {
    /// The text, cursor column and view start of this input.
    pub open spec fn field(&self) -> TextField {
        TextField { text: self.text.value@, cursor: self.cursor_pos.x as nat, view_start: self.view_start as nat }
    }

    /// The width left for text inside the border and padding.
    pub open spec fn width(&self) -> nat {
        effective_size_of(self.size, self.border_config, self.padding).width as nat
    }

    /// Whether `new` is `old` with its text field replaced by `f` (and nothing else changed).
    pub open spec fn edited(old: TextInputState, new: TextInputState, f: TextField) -> bool {
        &&& new.field() == f
        &&& new.text.name == old.text.name
        &&& new.cursor_pos.y == old.cursor_pos.y
        &&& new == (TextInputState { text: new.text, cursor_pos: new.cursor_pos,
                view_start: new.view_start, ..old })
    }

    /// The size left for content inside the border and padding.
    pub fn get_effective_size(&self) -> (r: Size)
        ensures
            r == effective_size_of(self.size, self.border_config, self.padding),
    {
        get_effective_size(&self.size, &self.border_config, &self.padding)
    }

    /// Ask for this widget to be redrawn.
    pub fn update(&self, scheduler: &mut SchedulerFrontend)
        ensures
            *final(scheduler) == (SchedulerFrontend { widgets_to_update: final(scheduler).widgets_to_update, ..*old(scheduler) }),
            final(scheduler).widgets_to_update@ == old(scheduler).widgets_to_update@.push(self.path),
    {
        scheduler.update_widget(self.path.clone());
    }

    /// Get the text.
    pub fn get_text(&self) -> (r: String)
        ensures
            r == self.text.value,
    {
        self.text.value.clone()
    }

    /// Set the text.
    pub fn set_text(&mut self, text: String)
        ensures
            *final(self) == (TextInputState { text: EzProperty { name: old(self).text.name, value: text }, ..*old(self) }),
    {
        self.text.set(text);
    }

    /// Set the cursor position.
    pub fn set_cursor_pos(&mut self, cursor_pos: Coordinates)
        ensures
            *final(self) == (TextInputState { cursor_pos, ..*old(self) }),
    {
        self.cursor_pos = cursor_pos;
    }

    /// Set the cursor column.
    pub fn set_cursor_x(&mut self, pos: usize)
        ensures
            *final(self) == (TextInputState { cursor_pos: Coordinates { x: pos, y: old(self).cursor_pos.y }, ..*old(self) }),
    {
        self.cursor_pos.x = pos;
    }

    /// Set the cursor row.
    pub fn set_cursor_y(&mut self, pos: usize)
        ensures
            *final(self) == (TextInputState { cursor_pos: Coordinates { x: old(self).cursor_pos.x, y: pos }, ..*old(self) }),
    {
        self.cursor_pos.y = pos;
    }

    /// Get the cursor position.
    pub fn get_cursor_pos(&self) -> (r: Coordinates)
        ensures
            r == self.cursor_pos,
    {
        self.cursor_pos
    }

    /// Set whether a task blinks the cursor.
    pub fn set_active_blink_task(&mut self, active: bool)
        ensures
            *final(self) == (TextInputState { active_blink_task: active, ..*old(self) }),
    {
        self.active_blink_task = active;
    }

    /// Whether a task blinks the cursor.
    pub fn get_active_blink_task(&self) -> (r: bool)
        ensures
            r == self.active_blink_task,
    {
        self.active_blink_task
    }

    /// Set whether the cursor is shown.
    pub fn set_blink_switch(&mut self, active: bool)
        ensures
            *final(self) == (TextInputState { blink_switch: active, ..*old(self) }),
    {
        self.blink_switch = active;
    }

    /// Whether the cursor is shown.
    pub fn get_blink_switch(&self) -> (r: bool)
        ensures
            r == self.blink_switch,
    {
        self.blink_switch
    }

    /// Set the byte the view starts at.
    pub fn set_view_start(&mut self, view_start: usize)
        ensures
            *final(self) == (TextInputState { view_start, ..*old(self) }),
    {
        self.view_start = view_start;
    }

    /// The byte the view starts at.
    pub fn get_view_start(&self) -> (r: usize)
        ensures
            r == self.view_start,
    {
        self.view_start
    }

    /// Set the maximum number of characters.
    pub fn set_max_length(&mut self, max_length: usize)
        ensures
            *final(self) == (TextInputState { max_length: EzProperty { name: old(self).max_length.name, value: max_length }, ..*old(self) }),
    {
        self.max_length.set(max_length);
    }

    /// The maximum number of characters.
    pub fn get_max_length(&self) -> (r: usize)
        ensures
            r == self.max_length.value,
    {
        self.max_length.value
    }
}

/// Whether the scheduler `new` is `old` with a redraw of `path` requested when `asked`, and
/// otherwise unchanged.
pub open spec fn redraw_requested(old: SchedulerFrontend, new: SchedulerFrontend, path: String, asked: bool) -> bool {
    if asked {
        &&& new.widgets_to_update@ == old.widgets_to_update@.push(path)
        &&& new == (SchedulerFrontend { widgets_to_update: new.widgets_to_update, ..old })
    } else {
        new == old
    }
}

/// Handle a character typed by the user: insert it at the cursor and move the cursor
/// and/or the view where needed. A full input ignores the character.
pub fn handle_char(state: &mut TextInputState, c: char, scheduler: &mut SchedulerFrontend)
    requires
        char_defined(old(state).field(), old(state).width(), old(state).max_length.value as nat),
    ensures
        TextInputState::edited(*old(state), *final(state), char_step(old(state).field(), c,
            old(state).width(), old(state).max_length.value as nat)),
        redraw_requested(*old(scheduler), *final(scheduler), old(state).path,
            byte_count(old(state).field().text) < old(state).max_length.value),
{
    let len = byte_len(&state.text.value);
    if len >= state.max_length.value {
        return;
    }
    let width = state.get_effective_size().width;
    let cursor = state.cursor_pos.x;
    let ghost f = old(state).field();
    if len < width - 1 {
        proof {
            lemma_byte_slice_all(f.text);
        }
        let pre = byte_substring(&state.text.value, 0, cursor);
        let post = byte_substring(&state.text.value, cursor, len);
        let new_text = concat3(&pre, &string_of_char(c), &post);
        state.text.set(new_text);
        if cursor < width - 1 {
            state.cursor_pos.x = cursor + 1;
        } else {
            state.view_start = state.view_start + 1;
        }
    } else {
        let (pre, view, post) = get_view_parts(state.text.value.clone(), state.view_start, width);
        proof {
            lemma_view_parts_concat(f.text, f.view_start, width as nat);
            lemma_byte_slice_all(view@);
        }
        let view_len = byte_len(&view);
        let new_view = if cursor < width - 1 {
            let k = if cursor < view_len { cursor } else { view_len };
            concat3(&byte_substring(&view, 0, k), &string_of_char(c), &byte_substring(&view, k, view_len))
        } else {
            concat2(&view, &string_of_char(c))
        };
        state.text.set(concat3(&pre, &new_view, &post));
        if cursor < width - 1 {
            state.cursor_pos.x = cursor + 1;
        } else {
            state.cursor_pos.x = cursor - 1;
            state.view_start = state.view_start + 2;
        }
    }
    assert(state.field().text =~= char_step(f, c, old(state).width(), old(state).max_length.value as nat).text);
    state.update(scheduler);
}

/// Handle a right arrow press: move the cursor right, or move the view when the cursor is
/// at the right edge of a text that does not fit.
pub fn handle_right(state: &mut TextInputState, scheduler: &mut SchedulerFrontend)
    requires
        right_defined(old(state).field(), old(state).width()),
    ensures
        TextInputState::edited(*old(state), *final(state), right_step(old(state).field(), old(state).width())),
        redraw_requested(*old(scheduler), *final(scheduler), old(state).path, true),
{
    let cursor = state.cursor_pos.x;
    let len = byte_len(&state.text.value);
    let width = state.get_effective_size().width;
    if len > width - 1 && cursor >= width - 2 && len - state.view_start > width - 1 {
        if len - state.view_start - width >= 4 {
            state.view_start = state.view_start + 4;
            state.cursor_pos.x = cursor - 3;
        } else {
            state.view_start = len - width + 1;
            state.cursor_pos.x = cursor - 1;
        }
    } else if len > width - 1 && cursor == width - 1 {
    } else if cursor < len {
        state.cursor_pos.x = cursor + 1;
    }
    state.update(scheduler);
}

/// Handle a left arrow press: move the cursor left, or move the view back when the cursor
/// is at the left edge of a text that does not fit.
pub fn handle_left(state: &mut TextInputState, scheduler: &mut SchedulerFrontend)
    requires
        left_defined(old(state).field(), old(state).width()),
    ensures
        TextInputState::edited(*old(state), *final(state), left_step(old(state).field(), old(state).width())),
        redraw_requested(*old(scheduler), *final(scheduler), old(state).path, true),
{
    let cursor = state.cursor_pos.x;
    let len = byte_len(&state.text.value);
    let width = state.get_effective_size().width;
    if len > width - 1 && cursor <= 1 && state.view_start > 0 {
        if state.view_start >= 4 {
            state.view_start = state.view_start - 4;
            state.cursor_pos.x = cursor + 4;
        } else {
            state.view_start = 0;
            state.cursor_pos.x = 4;
        }
    } else if cursor > 0 {
        state.cursor_pos.x = cursor - 1;
    }
    state.update(scheduler);
}

/// Handle a delete press: remove the byte right of the cursor. Nothing happens when there
/// is none.
pub fn handle_delete(state: &mut TextInputState, scheduler: &mut SchedulerFrontend)
    requires
        delete_defined(old(state).field(), old(state).width()),
    ensures
        match delete_step(old(state).field(), old(state).width()) {
            Some(f) => TextInputState::edited(*old(state), *final(state), f),
            None => *final(state) == *old(state),
        },
        redraw_requested(*old(scheduler), *final(scheduler), old(state).path,
            delete_step(old(state).field(), old(state).width()) is Some),
{
    let cursor = state.cursor_pos.x;
    let len = byte_len(&state.text.value);
    let width = state.get_effective_size().width;
    let ghost f = old(state).field();
    if len > width - 1 {
        let (pre, view, post) = get_view_parts(state.text.value.clone(), state.view_start, width);
        proof {
            lemma_view_parts_concat(f.text, f.view_start, width as nat);
            lemma_byte_slice_all(view@);
            lemma_byte_slice_all(post@);
            lemma_byte_count_empty(post@);
        }
        let view_len = byte_len(&view);
        let post_len = byte_len(&post);
        if cursor == width - 1 && post_len == 0 {
            return;
        }
        let new_text = if cursor > view_len - 1 {
            if post_len > 0 {
                concat3(&pre, &view, &byte_substring(&post, 1, post_len))
            } else {
                return;
            }
        } else {
            let v = concat2(&byte_substring(&view, 0, cursor), &byte_substring(&view, cursor + 1, view_len));
            concat3(&pre, &v, &post)
        };
        state.text.set(new_text);
    } else {
        if cursor == len {
            return;
        }
        proof {
            lemma_byte_slice_all(f.text);
        }
        let new_text = concat2(&byte_substring(&state.text.value, 0, cursor),
            &byte_substring(&state.text.value, cursor + 1, len));
        state.text.set(new_text);
    }
    assert(state.field().text =~= delete_step(f, old(state).width()).unwrap().text);
    state.update(scheduler);
}

/// Handle a backspace press: remove the byte left of the cursor and move the cursor and/or
/// view back where needed. Nothing happens at the start of the text.
pub fn handle_backspace(state: &mut TextInputState, scheduler: &mut SchedulerFrontend)
    requires
        backspace_defined(old(state).field(), old(state).width()),
    ensures
        match backspace_step(old(state).field(), old(state).width()) {
            Some(f) => TextInputState::edited(*old(state), *final(state), f),
            None => *final(state) == *old(state),
        },
        redraw_requested(*old(scheduler), *final(scheduler), old(state).path,
            backspace_step(old(state).field(), old(state).width()) is Some),
{
    let cursor = state.cursor_pos.x;
    let len = byte_len(&state.text.value);
    let width = state.get_effective_size().width;
    let ghost f = old(state).field();
    if len > width - 1 {
        if cursor == 0 && state.view_start == 0 {
            return;
        }
        let (pre0, view0, post) = get_view_parts(state.text.value.clone(), state.view_start, width);
        proof {
            lemma_view_parts_concat(f.text, f.view_start, width as nat);
            lemma_byte_slice_all(pre0@);
            lemma_byte_slice_all(view0@);
        }
        let pre_len = byte_len(&pre0);
        let view_len = byte_len(&view0);
        let pre = if cursor == 0 { byte_substring(&pre0, 0, pre_len - 1) } else { pre0 };
        let view = if cursor == 0 {
            view0
        } else {
            concat2(&byte_substring(&view0, 0, cursor - 1), &byte_substring(&view0, cursor, view_len))
        };
        state.text.set(concat3(&pre, &view, &post));
        let post_empty = is_empty_string(&post);
        if state.view_start > 1 && post_empty {
            state.view_start = state.view_start - 1;
        }
        if state.view_start > 1 && cursor == 0 && !is_empty_string(&pre) {
            state.view_start = state.view_start - 1;
        }
        if (cursor > 0 && is_empty_string(&pre)) || (cursor == width - 1 && !post_empty) {
            state.cursor_pos.x = cursor - 1;
        }
    } else {
        if cursor == 0 {
            return;
        }
        proof {
            lemma_byte_slice_all(f.text);
        }
        let new_text = concat2(&byte_substring(&state.text.value, 0, cursor - 1),
            &byte_substring(&state.text.value, cursor, len));
        state.text.set(new_text);
        state.cursor_pos.x = cursor - 1;
    }
    assert(state.field().text =~= backspace_step(f, old(state).width()).unwrap().text);
    state.update(scheduler);
}

/// Moving the cursor with the arrow keys never changes the text.
pub proof fn lemma_arrows_keep_text(f: TextField, width: nat)
    ensures
        right_step(f, width).text == f.text,
        left_step(f, width).text == f.text,
{
}

/// Typing a character into an input that is not full adds exactly one character to the
/// text, and the character appears in it.
pub proof fn lemma_char_adds_one(f: TextField, c: char, width: nat, max: nat)
    requires
        char_defined(f, width, max),
        byte_count(f.text) < max,
    ensures
        char_step(f, c, width, max).text.len() == f.text.len() + 1,
        char_step(f, c, width, max).text.contains(c),
{
    let len = byte_count(f.text);
    let r = char_step(f, c, width, max);
    lemma_byte_slice_all(f.text);
    if len < width - 1 {
        lemma_byte_slice(f.text, 0, f.cursor);
        lemma_byte_slice(f.text, f.cursor, len);
        let pre = byte_slice(f.text, 0, f.cursor);
        assert(r.text[pre.len() as int] == c);
    } else {
        lemma_view_parts_concat(f.text, f.view_start, width);
        let (pre, view, post) = view_parts(f.text, f.view_start, width);
        let vlen = byte_count(view);
        let k = min_nat(f.cursor, vlen);
        lemma_byte_slice_all(view);
        if f.cursor < width - 1 {
            lemma_byte_slice(view, 0, k);
            lemma_byte_slice(view, k, vlen);
            lemma_byte_slices_join(view, 0, k, vlen);
            let front = byte_slice(view, 0, k);
            assert(r.text[(pre.len() + front.len()) as int] == c);
        } else {
            assert(r.text[(pre.len() + view.len()) as int] == c);
        }
    }
}

/// In a text that fits the widget, a backspace right after typing a one-byte character
/// removes it again: text, cursor and view are as before.
pub proof fn lemma_backspace_undoes_char(f: TextField, c: char, width: nat, max: nat)
    requires
        char_defined(f, width, max),
        char_bytes(c) == 1,
        byte_count(f.text) < max,
        byte_count(f.text) + 1 < width,
    ensures
        backspace_step(char_step(f, c, width, max), width) == Some(f),
{
    let len = byte_count(f.text);
    let g = char_step(f, c, width, max);
    let k = chars_in_bytes(f.text, f.cursor)->0;
    lemma_byte_slice_all(f.text);
    lemma_byte_slice(f.text, 0, f.cursor);
    lemma_byte_slice(f.text, f.cursor, len);
    let a = f.text.take(k as int);
    let b = f.text.skip(k as int);
    assert(byte_slice(f.text, 0, f.cursor) =~= a);
    assert(byte_slice(f.text, f.cursor, len) =~= b);
    assert(g.text =~= a + (seq![c] + b));
    assert(a + seq![c] + b =~= g.text);
    lemma_chars_in_bytes(f.text, f.cursor);
    lemma_chars_in_bytes_after(a, seq![c] + b, 0);
    assert(seq![c].drop_first() =~= Seq::<char>::empty());
    lemma_chars_in_bytes_after(a + seq![c], b, 0);
    lemma_byte_count_concat(a, seq![c]);
    lemma_byte_count_concat(a + seq![c], b);
    assert(f.text =~= a + b);
    lemma_byte_count_concat(a, b);
    lemma_byte_count_single(c);
    lemma_chars_in_all_bytes(g.text);
    assert(g.text.subrange(0, k as int) =~= a);
    assert(g.text.subrange(k + 1 as int, g.text.len() as int) =~= b);
}

/// In a text that does not fit the widget, delete with the cursor on a byte of the view
/// removes exactly that byte, the one at `view_start + cursor` of the text (a character that
/// then takes one byte), and keeps the cursor and the view where they are.
pub proof fn lemma_delete_in_view(f: TextField, width: nat)
    requires
        delete_defined(f, width),
        byte_count(f.text) > width - 1,
        f.cursor < width - 1,
        f.view_start + f.cursor < byte_count(f.text),
    ensures
        delete_step(f, width) is Some,
        ({
            let g = delete_step(f, width).unwrap();
            &&& byte_count(g.text) + 1 == byte_count(f.text)
            &&& chars_in_bytes(f.text, f.view_start + f.cursor) is Some
            &&& g.text == f.text.remove(chars_in_bytes(f.text, f.view_start + f.cursor)->0 as int)
            &&& g.cursor == f.cursor
            &&& g.view_start == f.view_start
        }),
{
    let len = byte_count(f.text);
    let (pre, view, post) = view_parts(f.text, f.view_start, width);
    lemma_view_parts_concat(f.text, f.view_start, width);
    let vlen = byte_count(view);
    let c = f.cursor;
    assert(c < vlen);
    lemma_byte_slice_all(view);
    lemma_chars_in_bytes_next(view, c);
    lemma_byte_slice(view, 0, c);
    lemma_byte_slice(view, c + 1, vlen);
    let kc = chars_in_bytes(view, c)->0;
    let v = byte_slice(view, 0, c) + byte_slice(view, c + 1, vlen);
    assert(v =~= view.remove(kc as int));
    lemma_byte_count_concat(byte_slice(view, 0, c), byte_slice(view, c + 1, vlen));
    lemma_chars_in_bytes_prefix(view, c, view.skip(kc as int) + post);
    assert(view.take(kc as int) + (view.skip(kc as int) + post) =~= view + post);
    assert(f.text =~= pre + (view + post));
    lemma_chars_in_bytes_after(pre, view + post, c);
    let g = delete_step(f, width).unwrap();
    assert(g.text =~= f.text.remove((pre.len() + kc) as int));
    lemma_byte_count_concat(pre, v);
    lemma_byte_count_concat(pre + v, post);
    lemma_byte_count_concat(pre, view);
    lemma_byte_count_concat(pre + view, post);
}

/// The characters before byte `vs + n` of a text are those before byte `vs`, then those
/// before byte `n` of any part of the text that starts at byte `vs`.
proof fn lemma_bytes_into_part(pre: Seq<char>, part: Seq<char>, rest: Seq<char>, n: nat)
    requires
        on_boundary(part, n),
    ensures
        chars_in_bytes(pre + part + rest, byte_count(pre) + n)
            == Some(pre.len() + chars_in_bytes(part, n)->0),
{
    let k = chars_in_bytes(part, n)->0;
    lemma_chars_in_bytes(part, n);
    lemma_chars_in_bytes_prefix(part, n, part.skip(k as int) + rest);
    assert(part.take(k as int) + (part.skip(k as int) + rest) =~= part + rest);
    assert(pre + part + rest =~= pre + (part + rest));
    lemma_chars_in_bytes_after(pre, part + rest, n);
}

/// Typing a character into a text that fits the widget inserts it at the cursor's byte and
/// moves the cursor on by one; the text grows by the character's bytes.
pub proof fn lemma_char_in_fitting_text(f: TextField, c: char, width: nat, max: nat)
    requires
        char_defined(f, width, max),
        byte_count(f.text) < max,
        byte_count(f.text) < width - 1,
    ensures
        ({
            let g = char_step(f, c, width, max);
            &&& g.text == f.text.insert(chars_in_bytes(f.text, f.cursor)->0 as int, c)
            &&& byte_count(g.text) == byte_count(f.text) + char_bytes(c)
            &&& g.cursor == f.cursor + 1
            &&& g.view_start == f.view_start
        }),
{
    let len = byte_count(f.text);
    let g = char_step(f, c, width, max);
    lemma_byte_slice_all(f.text);
    lemma_byte_slice(f.text, 0, f.cursor);
    lemma_byte_slice(f.text, f.cursor, len);
    let a = byte_slice(f.text, 0, f.cursor);
    let b = byte_slice(f.text, f.cursor, len);
    assert(g.text =~= f.text.insert(chars_in_bytes(f.text, f.cursor)->0 as int, c));
    lemma_byte_count_single(c);
    lemma_byte_count_concat(a, seq![c]);
    lemma_byte_count_concat(a + seq![c], b);
    lemma_byte_count_concat(a, b);
    assert(a + b =~= f.text);
}

/// Typing a character into a text that does not fit the widget, with the cursor before the
/// last column, inserts it at byte `view_start + cursor` of the text (at the end of the view
/// when the cursor is past it) and moves the cursor on by one; the view stays.
pub proof fn lemma_char_in_view(f: TextField, c: char, width: nat, max: nat)
    requires
        char_defined(f, width, max),
        byte_count(f.text) < max,
        byte_count(f.text) >= width - 1,
        f.cursor < width - 1,
    ensures
        ({
            let g = char_step(f, c, width, max);
            let len = byte_count(f.text);
            let at = if f.view_start + f.cursor <= len { f.view_start + f.cursor } else { len };
            &&& chars_in_bytes(f.text, at as nat) is Some
            &&& g.text == f.text.insert(chars_in_bytes(f.text, at as nat)->0 as int, c)
            &&& byte_count(g.text) == len + char_bytes(c)
            &&& g.cursor == f.cursor + 1
            &&& g.view_start == f.view_start
        }),
{
    let len = byte_count(f.text);
    let g = char_step(f, c, width, max);
    let (pre, view, post) = view_parts(f.text, f.view_start, width);
    lemma_view_parts_concat(f.text, f.view_start, width);
    let vlen = byte_count(view);
    let k = min_nat(f.cursor, vlen);
    lemma_byte_slice_all(view);
    lemma_byte_slice(view, 0, k);
    lemma_byte_slice(view, k, vlen);
    let kv = chars_in_bytes(view, k)->0;
    assert(byte_slice(view, 0, k) + seq![c] + byte_slice(view, k, vlen) =~= view.insert(kv as int, c));
    lemma_bytes_into_part(pre, view, post, k);
    assert(f.view_start + k == (if f.view_start + f.cursor <= len { f.view_start + f.cursor } else { len }));
    assert(g.text =~= f.text.insert((pre.len() + kv) as int, c));
    lemma_byte_count_single(c);
    let a = byte_slice(view, 0, k);
    let b = byte_slice(view, k, vlen);
    lemma_byte_count_concat(a, seq![c]);
    lemma_byte_count_concat(a + seq![c], b);
    lemma_byte_count_concat(a, b);
    assert(a + b =~= view);
    lemma_byte_count_concat(pre, view.insert(kv as int, c));
    lemma_byte_count_concat(pre + view.insert(kv as int, c), post);
    lemma_byte_count_concat(pre, view);
    lemma_byte_count_concat(pre + view, post);
}

/// In a text that fits the widget, backspace with the cursor past the start removes exactly
/// the byte left of the cursor (a character that then takes one byte) and moves the cursor
/// back by one.
pub proof fn lemma_backspace_in_fitting_text(f: TextField, width: nat)
    requires
        backspace_defined(f, width),
        byte_count(f.text) <= width - 1,
        f.cursor > 0,
    ensures
        backspace_step(f, width) is Some,
        ({
            let g = backspace_step(f, width).unwrap();
            &&& byte_count(g.text) + 1 == byte_count(f.text)
            &&& g.text == f.text.remove(chars_in_bytes(f.text, (f.cursor - 1) as nat)->0 as int)
            &&& g.cursor + 1 == f.cursor
            &&& g.view_start == f.view_start
        }),
{
    let len = byte_count(f.text);
    let x = (f.cursor - 1) as nat;
    lemma_byte_slice_all(f.text);
    lemma_chars_in_bytes_next(f.text, x);
    lemma_byte_slice(f.text, 0, x);
    lemma_byte_slice(f.text, f.cursor, len);
    let g = backspace_step(f, width).unwrap();
    assert(g.text =~= f.text.remove(chars_in_bytes(f.text, x)->0 as int));
    lemma_byte_count_concat(byte_slice(f.text, 0, x), byte_slice(f.text, f.cursor, len));
}

/// In a text that does not fit the widget, backspace with the cursor inside the view (past
/// its start) removes exactly the byte left of the cursor, at `view_start + cursor - 1` of
/// the text (a character that then takes one byte).
pub proof fn lemma_backspace_in_view(f: TextField, width: nat)
    requires
        backspace_defined(f, width),
        byte_count(f.text) > width - 1,
        f.cursor > 0,
    ensures
        backspace_step(f, width) is Some,
        ({
            let g = backspace_step(f, width).unwrap();
            &&& byte_count(g.text) + 1 == byte_count(f.text)
            &&& chars_in_bytes(f.text, (f.view_start + f.cursor - 1) as nat) is Some
            &&& g.text == f.text.remove(chars_in_bytes(f.text, (f.view_start + f.cursor - 1) as nat)->0 as int)
        }),
{
    let (pre, view, post) = view_parts(f.text, f.view_start, width);
    lemma_view_parts_concat(f.text, f.view_start, width);
    let vlen = byte_count(view);
    let x = (f.cursor - 1) as nat;
    lemma_byte_slice_all(view);
    lemma_chars_in_bytes_next(view, x);
    lemma_byte_slice(view, 0, x);
    lemma_byte_slice(view, f.cursor, vlen);
    let kx = chars_in_bytes(view, x)->0;
    let v = byte_slice(view, 0, x) + byte_slice(view, f.cursor, vlen);
    assert(v =~= view.remove(kx as int));
    lemma_bytes_into_part(pre, view, post, x);
    let g = backspace_step(f, width).unwrap();
    assert(g.text =~= f.text.remove((pre.len() + kx) as int));
    lemma_byte_count_concat(byte_slice(view, 0, x), byte_slice(view, f.cursor, vlen));
    lemma_byte_count_concat(pre, v);
    lemma_byte_count_concat(pre + v, post);
    lemma_byte_count_concat(pre, view);
    lemma_byte_count_concat(pre + view, post);
}

/// In a text that fits the widget, delete removes exactly the character right of the cursor
/// (which then takes one byte) and keeps the cursor where it is.
pub proof fn lemma_delete_in_fitting_text(f: TextField, width: nat)
    requires
        delete_defined(f, width),
        byte_count(f.text) <= width - 1,
        f.cursor < byte_count(f.text),
    ensures
        ({
            let g = delete_step(f, width).unwrap();
            &&& delete_step(f, width) is Some
            &&& g.text.len() + 1 == f.text.len()
            &&& g.text == f.text.remove(chars_in_bytes(f.text, f.cursor)->0 as int)
            &&& g.cursor == f.cursor
        }),
{
    let len = byte_count(f.text);
    let g = delete_step(f, width).unwrap();
    lemma_byte_slice_all(f.text);
    lemma_chars_in_bytes_next(f.text, f.cursor);
    lemma_byte_slice(f.text, 0, f.cursor);
    lemma_byte_slice(f.text, f.cursor + 1, len);
    assert(g.text =~= f.text.remove(chars_in_bytes(f.text, f.cursor)->0 as int));
}

} // verus!
