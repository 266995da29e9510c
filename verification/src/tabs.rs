//! Tab layouts: moving the selection between tab headers, and fitting the row of headers
//! into the layout's width so that the selected header stays in view.
use vstd::prelude::*;
use crate::pixel::{Color, Pixel, PixelMap, PixelView, grid, column, lemma_grid_push, copy_column};
use crate::helpers::space_pixel;
use crate::scheduler::names;
use crate::strings::{string_of_char, char_len, substring};
use crate::definitions::ColorConfig;

verus! {

/// Index of the first header with the given identifier; the number of headers when there
/// is none.
pub open spec fn first_match(ids: Seq<Seq<char>>, id: Seq<char>) -> nat
    decreases ids.len(),
{
    if ids.len() == 0 {
        0
    } else if ids[0] == id {
        0
    } else {
        1 + first_match(ids.drop_first(), id)
    }
}

/// Index of the last header with the given identifier; -1 when there is none.
pub open spec fn last_match(ids: Seq<Seq<char>>, id: Seq<char>) -> int
    decreases ids.len(),
{
    if ids.len() == 0 {
        -1
    } else if ids.last() == id {
        ids.len() - 1
    } else {
        last_match(ids.drop_last(), id)
    }
}

/// The header selected after moving right: the one after the first header with the
/// selected identifier, when there is one.
pub open spec fn tab_right(ids: Seq<Seq<char>>, selected: Seq<char>) -> Option<Seq<char>> {
    let i = first_match(ids, selected);
    if i + 1 < ids.len() { Some(ids[(i + 1) as int]) } else { None }
}

/// The header selected after moving left: the one before the last header with the
/// selected identifier, when there is one.
pub open spec fn tab_left(ids: Seq<Seq<char>>, selected: Seq<char>) -> Option<Seq<char>> {
    let i = last_match(ids, selected);
    if i >= 1 { Some(ids[i - 1]) } else { None }
}

proof fn lemma_first_match(ids: Seq<Seq<char>>, id: Seq<char>)
    ensures
        first_match(ids, id) <= ids.len(),
        first_match(ids, id) < ids.len() ==> ids[first_match(ids, id) as int] == id,
        forall|k: int| 0 <= k < first_match(ids, id) ==> ids[k] != id,
    decreases ids.len(),
{
    if ids.len() > 0 && ids[0] != id {
        lemma_first_match(ids.drop_first(), id);
        assert forall|k: int| 0 <= k < first_match(ids, id) implies ids[k] != id by {
            if k > 0 {
                assert(ids[k] == ids.drop_first()[k - 1]);
            }
        }
    }
}

proof fn lemma_last_match(ids: Seq<Seq<char>>, id: Seq<char>)
    ensures
        -1 <= last_match(ids, id) < ids.len(),
        last_match(ids, id) >= 0 ==> ids[last_match(ids, id)] == id,
        forall|k: int| last_match(ids, id) < k < ids.len() ==> ids[k] != id,
    decreases ids.len(),
{
    if ids.len() > 0 && ids.last() != id {
        lemma_last_match(ids.drop_last(), id);
        assert forall|k: int| last_match(ids, id) < k < ids.len() implies ids[k] != id by {
            if k < ids.len() - 1 {
                assert(ids[k] == ids.drop_last()[k]);
            }
        }
    }
}

/// Index of the first header with the given identifier (the number of headers when none).
fn find_first(ids: &Vec<String>, id: &String) -> (r: usize)
    ensures
        r as nat == first_match(names(ids@), id@),
        r <= ids@.len(),
{
    proof { lemma_first_match(names(ids@), id@); }
    let mut i: usize = 0;
    while i < ids.len()
        invariant
            i <= ids@.len(),
            names(ids@).len() == ids@.len(),
            forall|k: int| 0 <= k < i ==> names(ids@)[k] != id@,
            first_match(names(ids@), id@) <= ids@.len(),
            first_match(names(ids@), id@) < ids@.len() ==> names(ids@)[first_match(names(ids@), id@) as int] == id@,
            forall|k: int| 0 <= k < first_match(names(ids@), id@) ==> names(ids@)[k] != id@,
        decreases ids@.len() - i,
    {
        assert(names(ids@)[i as int] == ids@[i as int]@);
        if ids[i].eq(id) {
            return i;
        }
        i = i + 1;
    }
    i
}

/// Index of the last header with the given identifier, counted from one (0 when none).
fn find_last(ids: &Vec<String>, id: &String) -> (r: usize)
    ensures
        r as int == last_match(names(ids@), id@) + 1,
        r <= ids@.len(),
{
    proof { lemma_last_match(names(ids@), id@); }
    let mut i: usize = ids.len();
    while i > 0
        invariant
            i <= ids@.len(),
            names(ids@).len() == ids@.len(),
            forall|k: int| i <= k < ids@.len() ==> names(ids@)[k] != id@,
            -1 <= last_match(names(ids@), id@) < ids@.len(),
            last_match(names(ids@), id@) >= 0 ==> names(ids@)[last_match(names(ids@), id@)] == id@,
            forall|k: int| last_match(names(ids@), id@) < k < ids@.len() ==> names(ids@)[k] != id@,
        decreases i,
    {
        assert(names(ids@)[i - 1] == ids@[i - 1]@);
        if ids[i - 1].eq(id) {
            return i;
        }
        i = i - 1;
    }
    0
}

/// Move the tab header selection one header right among the headers `ids` (the tab
/// buttons in their order). Returns whether the selection moved (then the layout asks for a
/// redraw); it stays when the selected header is the last one or is not found.
pub fn handle_tab_right(ids: &Vec<String>, selected: &mut String) -> (moved: bool)
    ensures
        moved == tab_right(names(ids@), old(selected)@) is Some,
        moved ==> final(selected)@ == tab_right(names(ids@), old(selected)@)->0,
        !moved ==> *final(selected) == *old(selected),
{
    let i = find_first(ids, selected);
    if i < ids.len() && i + 1 < ids.len() {
        assert(names(ids@)[i + 1] == ids@[i + 1]@);
        *selected = ids[i + 1].clone();
        true
    } else {
        false
    }
}

/// Move the tab header selection one header left among the headers `ids`. Returns whether
/// the selection moved; it stays when the selected header is the first one or is not found.
pub fn handle_tab_left(ids: &Vec<String>, selected: &mut String) -> (moved: bool)
    ensures
        moved == tab_left(names(ids@), old(selected)@) is Some,
        moved ==> final(selected)@ == tab_left(names(ids@), old(selected)@)->0,
        !moved ==> *final(selected) == *old(selected),
{
    let i = find_last(ids, selected);
    if i >= 2 {
        assert(names(ids@)[i - 2] == ids@[i - 2]@);
        *selected = ids[i - 2].clone();
        true
    } else {
        false
    }
}

/// Headers whose identifiers are all different.
pub open spec fn distinct(ids: Seq<Seq<char>>) -> bool {
    forall|i: int, j: int| 0 <= i < ids.len() && 0 <= j < ids.len() && i != j ==> ids[i] != ids[j]
}

proof fn lemma_distinct_matches(ids: Seq<Seq<char>>, k: int)
    requires
        distinct(ids),
        0 <= k < ids.len(),
    ensures
        first_match(ids, ids[k]) == k,
        last_match(ids, ids[k]) == k,
{
    lemma_first_match(ids, ids[k]);
    lemma_last_match(ids, ids[k]);
}

/// With headers of distinct identifiers, moving the selection right and then left comes
/// back to the selected header, and so does moving left and then right.
pub proof fn lemma_tab_left_undoes_right(ids: Seq<Seq<char>>, selected: Seq<char>)
    requires
        distinct(ids),
    ensures
        tab_right(ids, selected) is Some ==> tab_left(ids, tab_right(ids, selected)->0) == Some(selected),
        tab_left(ids, selected) is Some ==> tab_right(ids, tab_left(ids, selected)->0) == Some(selected),
{
    lemma_first_match(ids, selected);
    lemma_last_match(ids, selected);
    if tab_right(ids, selected) is Some {
        let i = first_match(ids, selected) as int;
        lemma_distinct_matches(ids, i + 1);
    }
    if tab_left(ids, selected) is Some {
        let i = last_match(ids, selected);
        lemma_distinct_matches(ids, i - 1);
    }
}

/// How many header columns are scrolled out of view on the left so that the selected
/// header (starting at `selected_x`, `selected_width` wide) fits in `width`: when the
/// headers are wider than the layout and the selected one ends beyond it, enough to bring
/// its end in view plus three more when that leaves more than three columns; when it is in
/// view but not first, three when there are more than three columns; otherwise none.
pub open spec fn tab_difference(width: nat, headers: nat, selected_x: nat, selected_width: nat) -> nat {
    if width < headers {
        if width <= selected_x + selected_width {
            let d = (selected_x + selected_width - width) as nat;
            if headers - d > 3 { d + 3 } else { d }
        } else if selected_x != 0 && headers > 3 {
            3
        } else {
            0
        }
    } else {
        0
    }
}

/// The header row after scrolling `difference` columns out of view, cut to `width`
/// columns, and filled up to `width` with columns of three filler cells.
pub open spec fn fitted_headers(c: Seq<Seq<PixelView>>, difference: nat, width: nat, e: PixelView)
    -> Seq<Seq<PixelView>> {
    let s = c.skip(difference as int);
    let t = if s.len() > width { s.take(width as int) } else { s };
    t + Seq::new((width - t.len()) as nat, |_i: int| seq![e, e, e])
}

/// A header position after scrolling `difference` columns out of view.
pub open spec fn shifted(x: nat, difference: nat) -> nat {
    if x >= difference { (x - difference) as nat } else { 0 }
}

/// The number of header columns to scroll out of view (see [`tab_difference`]).
pub fn get_tab_difference(width: usize, headers: usize, selected_x: usize, selected_width: usize)
    -> (r: usize)
    requires
        selected_x + selected_width <= usize::MAX,
        width < headers && width <= selected_x + selected_width ==> selected_x + selected_width - width <= headers,
    ensures
        r as nat == tab_difference(width as nat, headers as nat, selected_x as nat, selected_width as nat),
        r <= headers,
{
    if width < headers {
        if width <= selected_x + selected_width {
            let d = selected_x + selected_width - width;
            if headers - d > 3 { d + 3 } else { d }
        } else if selected_x != 0 && headers > 3 {
            3
        } else {
            0
        }
    } else {
        0
    }
}

/// A header position after scrolling (see [`shifted`]).
pub fn shift_position(x: usize, difference: usize) -> (r: usize)
    ensures
        r as nat == shifted(x as nat, difference as nat),
{
    if x >= difference { x - difference } else { 0 }
}

/// Fit a row of tab headers into `width` columns, keeping the selected header in view:
/// scroll columns out of view on the left, cut the row to the width, and fill it up with
/// columns of three spaces in the layout's colors. Returns the row and how many columns
/// were scrolled out of view (the header buttons move left by that much).
pub fn fit_tab_headers(headers: &PixelMap, width: usize, selected_x: usize, selected_width: usize,
    fg: Color, bg: Color) -> (r: (PixelMap, usize))
    requires
        selected_x + selected_width <= usize::MAX,
        width < headers@.len() && width <= selected_x + selected_width
            ==> selected_x + selected_width - width <= headers@.len(),
    ensures
        r.1 as nat == tab_difference(width as nat, headers@.len(), selected_x as nat, selected_width as nat),
        grid(&r.0) == fitted_headers(grid(headers), r.1 as nat, width as nat, space_pixel(fg, bg)),
{
    let difference = get_tab_difference(width, headers.len(), selected_x, selected_width);
    let e = Pixel::new(string_of_char(' '), fg, bg);
    let ghost goal = fitted_headers(grid(headers), difference as nat, width as nat, e@);
    let ghost s = grid(headers).skip(difference as int);
    let ghost t = if s.len() > width { s.take(width as int) } else { s };
    let end = if headers.len() - difference > width { difference + width } else { headers.len() };
    assert(t =~= grid(headers).subrange(difference as int, end as int));
    assert(t.len() <= width);
    let mut result: PixelMap = Vec::new();
    let mut i: usize = difference;
    while i < end
        invariant
            difference <= i <= end,
            end <= headers@.len(),
            grid(&result) == grid(headers).subrange(difference as int, i as int),
        decreases end - i,
    {
        let col = copy_column(&headers[i]);
        let ghost old_res = result@;
        let ghost cv = col;
        result.push(col);
        proof { lemma_grid_push(old_res, cv); }
        i = i + 1;
        assert(grid(&result) =~= grid(headers).subrange(difference as int, i as int));
    }
    assert(grid(&result) =~= goal.take(result@.len() as int));
    while result.len() < width
        invariant
            t.len() <= result@.len() <= width,
            goal == fitted_headers(grid(headers), difference as nat, width as nat, e@),
            t == (if s.len() > width { s.take(width as int) } else { s }),
            s == grid(headers).skip(difference as int),
            grid(&result) == goal.take(result@.len() as int),
        decreases width - result@.len(),
    {
        let col = vec![e.duplicate(), e.duplicate(), e.duplicate()];
        let ghost old_res = result@;
        let ghost cv = col;
        result.push(col);
        proof {
            lemma_grid_push(old_res, cv);
            assert(column(cv@) =~= seq![e@, e@, e@]);
        }
        assert(grid(&result) =~= goal.take(result@.len() as int));
    }
    assert(goal.take(result@.len() as int) =~= goal);
    (result, difference)
}

/// The colors of a tab header: the selection colors for the selected header, else the active
/// colors for the header of the tab shown, else the tab colors.
pub open spec fn header_colors(selected: bool, active: bool, colors: ColorConfig) -> (Color, Color) {
    if selected {
        (colors.selection_fg_color.value, colors.selection_bg_color.value)
    } else if active {
        (colors.active_fg_color.value, colors.active_bg_color.value)
    } else {
        (colors.tab_fg_color.value, colors.tab_bg_color.value)
    }
}

/// The colors of a tab header (see [`header_colors`]): `selection` is the id of the selected
/// header, `active_tab` the tab shown, and `header_text` the text of this header.
pub fn get_header_colors(selection: &String, header_id: &String, active_tab: &String, header_text: &String,
    colors: &ColorConfig) -> (r: (Color, Color))
    ensures
        r == header_colors(selection@ == header_id@, active_tab@ == header_text@, *colors),
{
    if *selection == *header_id {
        (colors.selection_fg_color.value, colors.selection_bg_color.value)
    } else if *active_tab == *header_text {
        (colors.active_fg_color.value, colors.active_bg_color.value)
    } else {
        (colors.tab_fg_color.value, colors.tab_bg_color.value)
    }
}

/// The suffix of the id of a tab's header button, after the tab's id.
pub open spec fn header_suffix() -> Seq<char> {
    "_tab_header"@
}

/// Whether a header is the one kept in view: the selected header when there is a selection,
/// else the header of the tab shown (its id is the tab's id with the header suffix).
pub open spec fn header_in_view(selection: Seq<char>, header_id: Seq<char>, active_tab: Seq<char>) -> bool {
    if selection.len() > 0 {
        selection == header_id
    } else {
        header_id == active_tab + header_suffix()
    }
}

/// Whether a header is the one kept in view (see [`header_in_view`]). A header's id ends in
/// the header suffix.
pub fn is_header_in_view(selection: &String, header_id: &String, active_tab: &String) -> (r: bool)
    requires
        selection@.len() == 0 ==> header_id@.len() >= header_suffix().len()
            && header_id@.skip(header_id@.len() - header_suffix().len()) == header_suffix(),
    ensures
        r == header_in_view(selection@, header_id@, active_tab@),
{
    if char_len(selection) > 0 {
        return *selection == *header_id;
    }
    let len = char_len(header_id);
    let suffix = String::from_str("_tab_header");
    proof {
        reveal_strlit("_tab_header");
    }
    let tab = substring(header_id, 0, len - char_len(&suffix));
    assert(header_id@ =~= tab@ + header_suffix());
    proof {
        if header_id@ == active_tab@ + header_suffix() {
            assert(tab@ =~= header_id@.take(len - header_suffix().len()));
            assert(active_tab@ =~= (active_tab@ + header_suffix()).take(active_tab@.len() as int));
        }
    }
    *active_tab == tab
}

/// The size of the tab shown under the header row of a tab layout `width` by `height`: one
/// column less wide, and five rows less high (none when the layout is under three rows high).
pub open spec fn tab_content_size(width: nat, height: nat) -> (nat, nat) {
    (if width >= 1 { (width - 1) as nat } else { 0 }, if height >= 3 { (height - 5) as nat } else { 0 })
}

/// The size of the tab shown (see [`tab_content_size`]). A layout of three or four rows has
/// no room for the header row and the tab's border.
pub fn get_tab_content_size(width: usize, height: usize) -> (r: (usize, usize))
    requires
        height >= 3 ==> height >= 5,
    ensures
        (r.0 as nat, r.1 as nat) == tab_content_size(width as nat, height as nat),
{
    (if width >= 1 { width - 1 } else { 0 }, if height >= 3 { height - 5 } else { 0 })
}

} // verus!
