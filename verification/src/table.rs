//! Table mode layout: how many rows and columns a table has, in which cell each child is
//! placed for each orientation, how high each row and how wide each column is, and the
//! drawing of the children in their cells.
use vstd::prelude::*;
use crate::definitions::{TableConfig, LayoutOrientation};
use crate::pixel::{Pixel, PixelView, PixelMap, Color, Coordinates, Size, grid, grid_of, column, concat,
    prefix_sum, plain_pixel, lemma_grid_push, lemma_column_push};
use crate::definitions::{ColorConfig, HorizontalAlignment, VerticalAlignment};
use crate::helpers::{aligned_horizontally, aligned_vertically, fits_vertically,
    align_content_horizontally, align_content_vertically};

verus! {

/// The entries of a table model.
pub open spec fn table_view(t: Seq<Vec<usize>>) -> Seq<Seq<usize>> {
    t.map_values(|c: Vec<usize>| c@)
}

/// `n / d` rounded up.
pub open spec fn ceil_div(n: nat, d: nat) -> nat {
    n / d + if n % d != 0 { 1nat } else { 0nat }
}

/// Rows and columns of a table with `n` children: both as configured when both are set;
/// otherwise the unset one grows so that every child has a cell.
pub open spec fn rows_and_cols(rows: nat, cols: nat, n: nat) -> (nat, nat) {
    if rows > 0 && cols > 0 {
        (rows, cols)
    } else if rows > 0 {
        (rows, ceil_div(n, rows))
    } else {
        (ceil_div(n, cols), cols)
    }
}

proof fn lemma_ceil_div_fits(n: usize, d: usize)
    ensures
        d > 0 && n % d != 0 ==> n / d < usize::MAX,
{
    if d > 0 && n % d != 0 {
        if d == 1 {
            assert(n % 1 == 0);
        } else {
            assert(n / d <= n / 2) by (nonlinear_arith) requires d >= 2, n >= 0;
        }
    }
}

/// Every child of a table has a cell: with at least one of rows and columns configured, the
/// grid holds at least `n` cells, and a configured count is kept as it is.
pub proof fn lemma_rows_and_cols_hold_children(rows: nat, cols: nat, n: nat)
    requires
        rows > 0 || cols > 0,
    ensures
        rows_and_cols(rows, cols, n).0 * rows_and_cols(rows, cols, n).1 >= n || (rows > 0 && cols > 0),
        rows > 0 ==> rows_and_cols(rows, cols, n).0 == rows,
        cols > 0 ==> rows_and_cols(rows, cols, n).1 == cols,
{
    if rows > 0 && cols == 0 {
        assert(rows * ceil_div(n, rows) >= n) by (nonlinear_arith)
            requires rows > 0, ceil_div(n, rows) == n / rows + if n % rows != 0 { 1nat } else { 0nat };
    } else if rows == 0 {
        assert(ceil_div(n, cols) * cols >= n) by (nonlinear_arith)
            requires cols > 0, ceil_div(n, cols) == n / cols + if n % cols != 0 { 1nat } else { 0nat };
    }
}

/// Calculate the amount of rows and columns of a table with `children` children.
pub fn get_rows_and_cols(table_config: &TableConfig, children: usize) -> (r: (usize, usize))
    requires
        table_config.rows.value > 0 || table_config.cols.value > 0,
    ensures
        (r.0 as nat, r.1 as nat) == rows_and_cols(table_config.rows.value as nat,
            table_config.cols.value as nat, children as nat),
{
    let config_rows = table_config.get_rows();
    let config_cols = table_config.get_cols();
    proof {
        lemma_ceil_div_fits(children, config_rows);
        lemma_ceil_div_fits(children, config_cols);
    }
    if config_rows > 0 && config_cols > 0 {
        (config_rows, config_cols)
    } else if config_rows > 0 {
        (config_rows, children / config_rows + if children % config_rows != 0 { 1 } else { 0 })
    } else {
        (children / config_cols + if children % config_cols != 0 { 1 } else { 0 }, config_cols)
    }
}

/// Whether the orientation fills the table starting from the bottom row.
pub open spec fn starts_at_bottom(o: LayoutOrientation) -> bool {
    o == LayoutOrientation::LeftRightBottomTop || o == LayoutOrientation::RightLeftBottomTop
        || o == LayoutOrientation::BottomTopLeftRight || o == LayoutOrientation::BottomTopRightLeft
}

/// Whether the orientation fills the table starting from the rightmost column.
pub open spec fn starts_at_right(o: LayoutOrientation) -> bool {
    o == LayoutOrientation::RightLeftTopBottom || o == LayoutOrientation::RightLeftBottomTop
        || o == LayoutOrientation::TopBottomRightLeft || o == LayoutOrientation::BottomTopRightLeft
}

/// The child placed in cell (x, y) of a `cols` by `rows` table in orientation `o`, counting
/// children in the order they are placed; -1 for the orientations that place no children.
pub open spec fn cell_index(o: LayoutOrientation, rows: int, cols: int, x: int, y: int) -> int {
    match o {
        LayoutOrientation::LeftRightTopBottom => y * cols + x,
        LayoutOrientation::LeftRightBottomTop => (rows - 1 - y) * cols + x,
        LayoutOrientation::RightLeftTopBottom => y * cols + (cols - 1 - x),
        LayoutOrientation::RightLeftBottomTop => (rows - 1 - y) * cols + (cols - 1 - x),
        LayoutOrientation::TopBottomLeftRight => x * rows + y,
        LayoutOrientation::TopBottomRightLeft => (cols - 1 - x) * rows + y,
        LayoutOrientation::BottomTopLeftRight => x * rows + (rows - 1 - y),
        LayoutOrientation::BottomTopRightLeft => (cols - 1 - x) * rows + (rows - 1 - y),
        _ => -1,
    }
}

/// The cell (x, y) in which the `i`th child is placed.
pub open spec fn child_cell(o: LayoutOrientation, rows: int, cols: int, i: int) -> (int, int) {
    match o {
        LayoutOrientation::LeftRightTopBottom => (i % cols, i / cols),
        LayoutOrientation::LeftRightBottomTop => (i % cols, rows - 1 - i / cols),
        LayoutOrientation::RightLeftTopBottom => (cols - 1 - i % cols, i / cols),
        LayoutOrientation::RightLeftBottomTop => (cols - 1 - i % cols, rows - 1 - i / cols),
        LayoutOrientation::TopBottomLeftRight => (i / rows, i % rows),
        LayoutOrientation::TopBottomRightLeft => (cols - 1 - i / rows, i % rows),
        LayoutOrientation::BottomTopLeftRight => (i / rows, rows - 1 - i % rows),
        LayoutOrientation::BottomTopRightLeft => (cols - 1 - i / rows, rows - 1 - i % rows),
        _ => (-1, -1),
    }
}

/// The entry of the table model in cell (x, y): the child placed there, or 0 when the cell
/// stays empty.
pub open spec fn model_entry(o: LayoutOrientation, rows: int, cols: int, n: int, x: int, y: int) -> int {
    let k = cell_index(o, rows, cols, x, y);
    if 0 <= k < n { k } else { 0 }
}

/// Whether `table` (indexed `[x][y]`) is the model of a `cols` by `rows` table holding `n`
/// children in orientation `o`.
pub open spec fn is_table_model(table: Seq<Seq<usize>>, o: LayoutOrientation, rows: nat, cols: nat, n: nat) -> bool {
    &&& table.len() == cols
    &&& forall|x: int| 0 <= x < cols ==> (#[trigger] table[x]).len() == rows
    &&& forall|x: int, y: int| 0 <= x < cols && 0 <= y < rows ==>
            (#[trigger] table[x][y]) as int == model_entry(o, rows as int, cols as int, n as int, x, y)
}

/// Whether the table model can be built: the children fit in the table, and a table filled
/// from the bottom (right) has at least one row (column).
pub open spec fn model_defined(o: LayoutOrientation, rows: nat, cols: nat, n: nat) -> bool {
    &&& n <= rows * cols
    &&& rows * cols <= usize::MAX
    &&& starts_at_bottom(o) ==> rows > 0
    &&& starts_at_right(o) ==> cols > 0
}

proof fn lemma_index_bound(a: int, b: int, rows: int, cols: int)
    requires
        0 <= a < rows,
        0 <= b < cols,
    ensures
        0 <= a * cols + b < rows * cols,
        0 <= b * rows + a < rows * cols,
{
    assert(0 <= a * cols) by (nonlinear_arith) requires 0 <= a, 0 <= cols;
    assert(a * cols + b < rows * cols) by (nonlinear_arith) requires a + 1 <= rows, b < cols, 0 <= cols;
    assert(0 <= b * rows) by (nonlinear_arith) requires 0 <= b, 0 <= rows;
    assert(b * rows + a < rows * cols) by (nonlinear_arith) requires b + 1 <= cols, a < rows, 0 <= rows;
}

/// The cell index of (x, y), computed without overflow.
fn compute_cell_index(o: LayoutOrientation, rows: usize, cols: usize, x: usize, y: usize) -> (k: Option<usize>)
    requires
        x < cols,
        y < rows,
        rows * cols <= usize::MAX,
    ensures
        match k {
            Some(k) => k as int == cell_index(o, rows as int, cols as int, x as int, y as int),
            None => cell_index(o, rows as int, cols as int, x as int, y as int) == -1,
        },
{
    proof {
        lemma_index_bound(y as int, x as int, rows as int, cols as int);
        lemma_index_bound((rows - 1 - y) as int, x as int, rows as int, cols as int);
        lemma_index_bound(y as int, (cols - 1 - x) as int, rows as int, cols as int);
        lemma_index_bound((rows - 1 - y) as int, (cols - 1 - x) as int, rows as int, cols as int);
    }
    match o {
        LayoutOrientation::LeftRightTopBottom => Some(y * cols + x),
        LayoutOrientation::LeftRightBottomTop => Some((rows - 1 - y) * cols + x),
        LayoutOrientation::RightLeftTopBottom => Some(y * cols + (cols - 1 - x)),
        LayoutOrientation::RightLeftBottomTop => Some((rows - 1 - y) * cols + (cols - 1 - x)),
        LayoutOrientation::TopBottomLeftRight => Some(x * rows + y),
        LayoutOrientation::TopBottomRightLeft => Some((cols - 1 - x) * rows + y),
        LayoutOrientation::BottomTopLeftRight => Some(x * rows + (rows - 1 - y)),
        LayoutOrientation::BottomTopRightLeft => Some((cols - 1 - x) * rows + (rows - 1 - y)),
        _ => None,
    }
}

/// Create a model of the order in which children are added: a table (indexed `[x][y]`) of
/// child indices. For example 9 children in orientation right-left, top-bottom give
/// ```text
/// 2 1 0
/// 5 4 3
/// 8 7 6
/// ```
/// Returns the table with its rows and columns.
pub fn get_table_model(table_config: &TableConfig, orientation: LayoutOrientation, children: usize)
    -> (r: (Vec<Vec<usize>>, usize, usize))
    requires
        table_config.rows.value > 0 || table_config.cols.value > 0,
        ({
            let (rows, cols) = rows_and_cols(table_config.rows.value as nat,
                table_config.cols.value as nat, children as nat);
            model_defined(orientation, rows, cols, children as nat)
        }),
    ensures
        (r.1 as nat, r.2 as nat) == rows_and_cols(table_config.rows.value as nat,
            table_config.cols.value as nat, children as nat),
        is_table_model(table_view(r.0@), orientation, r.1 as nat, r.2 as nat, children as nat),
{
    let (rows, cols) = get_rows_and_cols(table_config, children);
    let mut table: Vec<Vec<usize>> = Vec::new();
    let mut x: usize = 0;
    while x < cols
        invariant
            x <= cols,
            rows * cols <= usize::MAX,
            table@.len() == x,
            forall|i: int| 0 <= i < x ==> (#[trigger] table@[i])@.len() == rows,
            forall|i: int, j: int| 0 <= i < x && 0 <= j < rows ==>
                (#[trigger] table@[i]@[j]) as int == model_entry(orientation, rows as int,
                    cols as int, children as int, i, j),
        decreases cols - x,
    {
        let mut col: Vec<usize> = Vec::new();
        let mut y: usize = 0;
        while y < rows
            invariant
                y <= rows,
                x < cols,
                rows * cols <= usize::MAX,
                col@.len() == y,
                forall|j: int| 0 <= j < y ==> (#[trigger] col@[j]) as int == model_entry(
                    orientation, rows as int, cols as int, children as int, x as int, j),
            decreases rows - y,
        {
            let entry = match compute_cell_index(orientation, rows, cols, x, y) {
                Some(k) => if k < children { k } else { 0 },
                None => 0,
            };
            col.push(entry);
            y = y + 1;
        }
        table.push(col);
        x = x + 1;
    }
    (table, rows, cols)
}

/// Every child of a table lands in the cell computed for it: counting children in the
/// order they are placed, the `i`th child lies inside the table at `child_cell(i)`, and the
/// model holds `i` there.
pub proof fn lemma_child_lands_in_its_cell(o: LayoutOrientation, rows: nat, cols: nat, n: nat, i: int)
    requires
        0 <= i < n,
        n <= rows * cols,
        o != LayoutOrientation::Horizontal,
        o != LayoutOrientation::Vertical,
    ensures
        ({
            let (x, y) = child_cell(o, rows as int, cols as int, i);
            &&& 0 <= x < cols
            &&& 0 <= y < rows
            &&& cell_index(o, rows as int, cols as int, x, y) == i
            &&& model_entry(o, rows as int, cols as int, n as int, x, y) == i
        }),
{
    let r = rows as int;
    let c = cols as int;
    assert(r > 0 && c > 0) by (nonlinear_arith) requires 0 <= i < n, n <= r * c, r >= 0, c >= 0;
    vstd::arithmetic::div_mod::lemma_fundamental_div_mod(i, c);
    vstd::arithmetic::div_mod::lemma_fundamental_div_mod(i, r);
    assert(0 <= i % c < c);
    assert(0 <= i % r < r);
    assert(0 <= i / c) by (nonlinear_arith) requires 0 <= i, c > 0;
    assert(0 <= i / r) by (nonlinear_arith) requires 0 <= i, r > 0;
    assert(i / c < r) by (nonlinear_arith) requires 0 <= i < r * c, c > 0, i == c * (i / c) + i % c, 0 <= i % c;
    assert(i / r < c) by (nonlinear_arith) requires 0 <= i < r * c, r > 0, i == r * (i / r) + i % r, 0 <= i % r;
    assert((i / c) * c == c * (i / c)) by (nonlinear_arith);
    assert((i / r) * r == r * (i / r)) by (nonlinear_arith);
}

/// The larger of two numbers.
pub open spec fn max_nat(a: nat, b: nat) -> nat {
    if a >= b { a } else { b }
}

/// Height of a pixel map: its highest column (0 without columns).
pub open spec fn map_height(m: Seq<Vec<Pixel>>) -> nat
    decreases m.len(),
{
    if m.len() == 0 { 0 } else { max_nat(map_height(m.drop_last()), m.last()@.len()) }
}

/// The height of a pixel map.
pub fn pixel_map_height(m: &PixelMap) -> (h: usize)
    ensures
        h as nat == map_height(m@),
{
    let mut h: usize = 0;
    let mut i: usize = 0;
    while i < m.len()
        invariant
            i <= m.len(),
            h as nat == map_height(m@.subrange(0, i as int)),
        decreases m.len() - i,
    {
        assert(m@.subrange(0, i + 1).drop_last() =~= m@.subrange(0, i as int));
        if m[i].len() > h {
            h = m[i].len();
        }
        i = i + 1;
    }
    assert(m@.subrange(0, i as int) =~= m@);
    h
}

/// Whether the table has an entry at (x, y).
pub open spec fn has_entry(table: Seq<Seq<usize>>, x: int, y: int) -> bool {
    0 <= x < table.len() && 0 <= y < table[x].len()
}

/// The highest child content among the cells (0..k, y) of the table.
pub open spec fn row_max(table: Seq<Seq<usize>>, contents: Seq<PixelMap>, y: int, k: nat) -> nat
    decreases k,
{
    if k == 0 {
        0
    } else {
        let x = k - 1;
        let rest = row_max(table, contents, y, (k - 1) as nat);
        if has_entry(table, x, y) {
            max_nat(rest, map_height(contents[table[x][y] as int]@))
        } else {
            rest
        }
    }
}

/// The widest child content among the cells (x, 0..k) of the table.
pub open spec fn col_max(table: Seq<Seq<usize>>, contents: Seq<PixelMap>, x: int, k: nat) -> nat
    decreases k,
{
    if k == 0 {
        0
    } else {
        let y = k - 1;
        let rest = col_max(table, contents, x, (k - 1) as nat);
        if has_entry(table, x, y) {
            max_nat(rest, contents[table[x][y] as int]@.len())
        } else {
            rest
        }
    }
}

/// Whether every entry of the table that lies within `cols` by `rows` refers to a child.
pub open spec fn entries_refer_to_children(table: Seq<Seq<usize>>, rows: nat, cols: nat, n: nat) -> bool {
    forall|x: int, y: int| 0 <= x < cols && 0 <= y < rows && has_entry(table, x, y)
        ==> (#[trigger] table[x][y]) < n
}

/// A number raised to a minimum when the minimum is set (non-zero).
pub open spec fn at_least_default(size: nat, default: nat) -> nat {
    if default > 0 && size < default { default } else { size }
}

/// Height of row `y`: the default when forced, else the highest child in the row, raised to
/// the configured default height when one is set.
pub open spec fn row_height(config: TableConfig, cols: nat, table: Seq<Seq<usize>>,
    contents: Seq<PixelMap>, default_height: nat, y: int) -> nat {
    if config.force_default_row_height.value {
        default_height
    } else {
        at_least_default(row_max(table, contents, y, cols), config.row_default_height.value as nat)
    }
}

/// Width of column `x`: the default when forced, else the widest child in the column,
/// raised to the configured default width when one is set.
pub open spec fn col_width(config: TableConfig, rows: nat, table: Seq<Seq<usize>>,
    contents: Seq<PixelMap>, default_width: nat, x: int) -> nat {
    if config.force_default_col_width.value {
        default_width
    } else {
        at_least_default(col_max(table, contents, x, rows), config.col_default_width.value as nat)
    }
}

/// The highest child among the cells (0..k, y) is at least as high as each of them, and as
/// high as one of them unless it is 0.
pub proof fn lemma_row_max(table: Seq<Seq<usize>>, contents: Seq<PixelMap>, y: int, k: nat)
    ensures
        forall|x: int| 0 <= x < k && has_entry(table, x, y) ==> row_max(table, contents, y, k)
            >= #[trigger] map_height(contents[table[x][y] as int]@),
        row_max(table, contents, y, k) == 0 || exists|x: int| 0 <= x < k && has_entry(table, x, y)
            && row_max(table, contents, y, k) == #[trigger] map_height(contents[table[x][y] as int]@),
    decreases k,
{
    if k > 0 {
        let x = k - 1;
        lemma_row_max(table, contents, y, (k - 1) as nat);
        let rest = row_max(table, contents, y, (k - 1) as nat);
        if has_entry(table, x, y) && map_height(contents[table[x][y] as int]@) >= rest {
            assert(row_max(table, contents, y, k) == map_height(contents[table[x][y] as int]@));
        } else if rest != 0 {
            let w = choose|w: int| 0 <= w < k - 1 && has_entry(table, w, y)
                && rest == #[trigger] map_height(contents[table[w][y] as int]@);
            assert(row_max(table, contents, y, k) == map_height(contents[table[w][y] as int]@));
        }
    }
}

/// The widest child among the cells (x, 0..k) is at least as wide as each of them, and as
/// wide as one of them unless it is 0.
pub proof fn lemma_col_max(table: Seq<Seq<usize>>, contents: Seq<PixelMap>, x: int, k: nat)
    ensures
        forall|y: int| 0 <= y < k && has_entry(table, x, y) ==> col_max(table, contents, x, k)
            >= (#[trigger] contents[table[x][y] as int])@.len(),
        col_max(table, contents, x, k) == 0 || exists|y: int| 0 <= y < k && has_entry(table, x, y)
            && col_max(table, contents, x, k) == (#[trigger] contents[table[x][y] as int])@.len(),
    decreases k,
{
    if k > 0 {
        let y = k - 1;
        lemma_col_max(table, contents, x, (k - 1) as nat);
        let rest = col_max(table, contents, x, (k - 1) as nat);
        if has_entry(table, x, y) && contents[table[x][y] as int]@.len() >= rest {
            assert(col_max(table, contents, x, k) == contents[table[x][y] as int]@.len());
        } else if rest != 0 {
            let w = choose|w: int| 0 <= w < k - 1 && has_entry(table, x, w)
                && rest == (#[trigger] contents[table[x][w] as int])@.len();
            assert(col_max(table, contents, x, k) == contents[table[x][w] as int]@.len());
        }
    }
}

/// A row whose height is not forced is as high as the larger of its highest child and the
/// configured default row height: at least each, and equal to one of them. A forced row is
/// the default height given.
pub proof fn lemma_row_height(config: TableConfig, cols: nat, table: Seq<Seq<usize>>,
    contents: Seq<PixelMap>, default_height: nat, y: int)
    ensures
        config.force_default_row_height.value ==> row_height(config, cols, table, contents,
            default_height, y) == default_height,
        !config.force_default_row_height.value ==> {
            let h = row_height(config, cols, table, contents, default_height, y);
            &&& h >= config.row_default_height.value
            &&& forall|x: int| 0 <= x < cols && has_entry(table, x, y)
                    ==> h >= #[trigger] map_height(contents[table[x][y] as int]@)
            &&& (h == config.row_default_height.value || exists|x: int| 0 <= x < cols && has_entry(table, x, y)
                    && h == #[trigger] map_height(contents[table[x][y] as int]@))
        },
{
    lemma_row_max(table, contents, y, cols);
}

/// A column whose width is not forced is as wide as the larger of its widest child and the
/// configured default column width: at least each, and equal to one of them. A forced column
/// is the default width given.
pub proof fn lemma_col_width(config: TableConfig, rows: nat, table: Seq<Seq<usize>>,
    contents: Seq<PixelMap>, default_width: nat, x: int)
    ensures
        config.force_default_col_width.value ==> col_width(config, rows, table, contents,
            default_width, x) == default_width,
        !config.force_default_col_width.value ==> {
            let w = col_width(config, rows, table, contents, default_width, x);
            &&& w >= config.col_default_width.value
            &&& forall|y: int| 0 <= y < rows && has_entry(table, x, y)
                    ==> w >= (#[trigger] contents[table[x][y] as int])@.len()
            &&& (w == config.col_default_width.value || exists|y: int| 0 <= y < rows && has_entry(table, x, y)
                    && w == (#[trigger] contents[table[x][y] as int])@.len())
        },
{
    lemma_col_max(table, contents, x, rows);
}

/// Calculate how high each row is: the default when forced, else the highest child in the
/// row (at least the configured default height).
pub fn get_row_heights(table_config: &TableConfig, rows: usize, cols: usize,
    child_table: &Vec<Vec<usize>>, content_list: &Vec<PixelMap>, default_height: usize)
    -> (r: Vec<usize>)
    requires
        !table_config.force_default_row_height.value ==> entries_refer_to_children(
            table_view(child_table@), rows as nat, cols as nat, content_list@.len()),
    ensures
        r@.len() == rows,
        forall|y: int| 0 <= y < rows ==> (#[trigger] r@[y]) as nat == row_height(*table_config,
            cols as nat, table_view(child_table@), content_list@, default_height as nat, y),
        !table_config.force_default_row_height.value ==> forall|y: int| 0 <= y < rows
            ==> (#[trigger] r@[y]) >= table_config.row_default_height.value,
{
    let mut row_heights: Vec<usize> = Vec::new();
    let force = table_config.get_force_default_row_height();
    let default = table_config.get_row_default_height();
    let mut y: usize = 0;
    while y < rows
        invariant
            y <= rows,
            force == table_config.force_default_row_height.value,
            default == table_config.row_default_height.value,
            !force ==> entries_refer_to_children(table_view(child_table@), rows as nat, cols as nat,
                content_list@.len()),
            row_heights@.len() == y,
            forall|j: int| 0 <= j < y ==> (#[trigger] row_heights@[j]) as nat == row_height(
                *table_config, cols as nat, table_view(child_table@), content_list@, default_height as nat, j),
        decreases rows - y,
    {
        if force {
            row_heights.push(default_height);
        } else {
            let mut largest: usize = 0;
            let mut x: usize = 0;
            while x < cols
                invariant
                    x <= cols,
                    y < rows,
                    entries_refer_to_children(table_view(child_table@), rows as nat, cols as nat,
                        content_list@.len()),
                    largest as nat == row_max(table_view(child_table@), content_list@, y as int, x as nat),
                decreases cols - x,
            {
                if x < child_table.len() && y < child_table[x].len() {
                    let idx = child_table[x][y];
                    assert(table_view(child_table@)[x as int][y as int] < content_list@.len());
                    let height = pixel_map_height(&content_list[idx]);
                    if height > largest {
                        largest = height;
                    }
                }
                x = x + 1;
            }
            if default > 0 && largest < default {
                largest = default;
            }
            row_heights.push(largest);
        }
        y = y + 1;
    }
    row_heights
}

/// Calculate how wide each column is: the default when forced, else the widest child in the
/// column (at least the configured default width).
pub fn get_col_widths(table_config: &TableConfig, rows: usize, cols: usize,
    child_table: &Vec<Vec<usize>>, content_list: &Vec<PixelMap>, default_width: usize)
    -> (r: Vec<usize>)
    requires
        !table_config.force_default_col_width.value ==> entries_refer_to_children(
            table_view(child_table@), rows as nat, cols as nat, content_list@.len()),
    ensures
        r@.len() == cols,
        forall|x: int| 0 <= x < cols ==> (#[trigger] r@[x]) as nat == col_width(*table_config,
            rows as nat, table_view(child_table@), content_list@, default_width as nat, x),
        !table_config.force_default_col_width.value ==> forall|x: int| 0 <= x < cols
            ==> (#[trigger] r@[x]) >= table_config.col_default_width.value,
{
    let mut col_widths: Vec<usize> = Vec::new();
    let force = table_config.get_force_default_col_width();
    let default = table_config.get_col_default_width();
    let mut x: usize = 0;
    while x < cols
        invariant
            x <= cols,
            force == table_config.force_default_col_width.value,
            default == table_config.col_default_width.value,
            !force ==> entries_refer_to_children(table_view(child_table@), rows as nat, cols as nat,
                content_list@.len()),
            col_widths@.len() == x,
            forall|j: int| 0 <= j < x ==> (#[trigger] col_widths@[j]) as nat == col_width(
                *table_config, rows as nat, table_view(child_table@), content_list@, default_width as nat, j),
        decreases cols - x,
    {
        if force {
            col_widths.push(default_width);
        } else {
            let mut largest: usize = 0;
            let mut y: usize = 0;
            while y < rows
                invariant
                    y <= rows,
                    x < cols,
                    entries_refer_to_children(table_view(child_table@), rows as nat, cols as nat,
                        content_list@.len()),
                    largest as nat == col_max(table_view(child_table@), content_list@, x as int, y as nat),
                decreases rows - y,
            {
                if x < child_table.len() && y < child_table[x].len() {
                    let idx = child_table[x][y];
                    assert(table_view(child_table@)[x as int][y as int] < content_list@.len());
                    let width = content_list[idx].len();
                    if width > largest {
                        largest = width;
                    }
                }
                y = y + 1;
            }
            if default > 0 && largest < default {
                largest = default;
            }
            col_widths.push(largest);
        }
        x = x + 1;
    }
    col_widths
}

/// Everything the drawing of a table depends on.
pub struct TableSpec {
    /// The table model, indexed `[x][y]`.
    pub table: Seq<Seq<usize>>,
    /// The content of each child.
    pub contents: Seq<PixelMap>,
    /// The horizontal and vertical alignment of each child.
    pub aligns: Seq<(HorizontalAlignment, VerticalAlignment)>,
    /// The width of each column.
    pub widths: Seq<usize>,
    /// The height of each row.
    pub heights: Seq<usize>,
    /// Pixel used to align content within its cell.
    pub filler: PixelView,
    /// Pixel of the positions no child is drawn on.
    pub canvas: PixelView,
}

impl TableSpec {
    pub open spec fn rows(self) -> nat { self.heights.len() }

    pub open spec fn cols(self) -> nat { self.widths.len() }

    pub open spec fn n(self) -> nat { self.contents.len() }

    /// Whether cell (x, y) holds a child that is drawn.
    pub open spec fn valid(self, x: int, y: int) -> bool {
        has_entry(self.table, x, y) && self.table[x][y] < self.n()
    }

    /// The child of cell (x, y).
    pub open spec fn child(self, x: int, y: int) -> int {
        self.table[x][y] as int
    }

    /// Whether child `i` was drawn in a cell before (x, y); cells are drawn column by
    /// column, top to bottom within a column.
    pub open spec fn taken_before(self, i: int, x: nat, y: nat) -> bool
        decreases x, y,
    {
        if y > 0 {
            self.taken_before(i, x, (y - 1) as nat) || (self.valid(x as int, y - 1)
                && self.child(x as int, y - 1) == i)
        } else if x > 0 {
            self.taken_before(i, (x - 1) as nat, self.rows())
        } else {
            false
        }
    }

    /// The content drawn in cell (x, y): the child's content the first time the child is
    /// drawn, nothing the next times.
    pub open spec fn cell_content(self, x: nat, y: nat) -> Seq<Seq<PixelView>> {
        let i = self.child(x as int, y as int);
        if self.taken_before(i, x, y) { Seq::empty() } else { grid_of(self.contents[i]@) }
    }

    /// The cell content aligned horizontally within its column, and its offset.
    pub open spec fn h_aligned(self, x: nat, y: nat) -> (Seq<Seq<PixelView>>, nat) {
        let i = self.child(x as int, y as int);
        aligned_horizontally(self.cell_content(x, y), self.aligns[i].0,
            self.widths[x as int] as nat, self.filler)
    }

    /// The cell content aligned within its cell, and its vertical offset.
    pub open spec fn v_aligned(self, x: nat, y: nat) -> (Seq<Seq<PixelView>>, nat) {
        let i = self.child(x as int, y as int);
        aligned_vertically(self.h_aligned(x, y).0, self.aligns[i].1,
            self.heights[y as int] as nat, self.filler)
    }

    /// The position at which the child of cell (x, y) is drawn.
    pub open spec fn cell_position(self, x: nat, y: nat) -> Coordinates {
        Coordinates {
            x: (prefix_sum(self.widths, x as int) + self.h_aligned(x, y).1) as usize,
            y: (prefix_sum(self.heights, y as int) + self.v_aligned(x, y).1) as usize,
        }
    }

    /// The position of child `i` after drawing the cells before (x, y): that of the last
    /// cell it was drawn in.
    pub open spec fn position_before(self, i: int, x: nat, y: nat) -> Option<Coordinates>
        decreases x, y,
    {
        if y > 0 {
            if self.valid(x as int, y - 1) && self.child(x as int, y - 1) == i {
                Some(self.cell_position(x, (y - 1) as nat))
            } else {
                self.position_before(i, x, (y - 1) as nat)
            }
        } else if x > 0 {
            self.position_before(i, (x - 1) as nat, self.rows())
        } else {
            None
        }
    }

    /// The pixel at (cx, cy) within cell (x, y).
    pub open spec fn cell_pixel(self, x: nat, y: nat, cx: int, cy: int) -> PixelView {
        let m = self.v_aligned(x, y).0;
        if self.valid(x as int, y as int) && 0 <= cx < m.len() && 0 <= cy < m[cx].len() {
            m[cx][cy]
        } else {
            self.canvas
        }
    }

    /// Column `cx` of the cells in table column `x`, cut into one segment per row.
    pub open spec fn segments(self, x: nat, cx: int) -> Seq<Seq<PixelView>> {
        Seq::new(self.rows(), |y: int| Seq::new(self.heights[y] as nat,
            |cy: int| self.cell_pixel(x, y as nat, cx, cy)))
    }

    /// The screen columns of table column `x`.
    pub open spec fn table_columns(self, x: nat) -> Seq<Seq<PixelView>> {
        Seq::new(self.widths[x as int] as nat, |cx: int| concat(self.segments(x, cx)))
    }

    /// The drawn table: the screen columns of every table column, left to right.
    pub open spec fn drawn(self) -> Seq<Seq<PixelView>> {
        concat(Seq::new(self.cols(), |x: int| self.table_columns(x as nat)))
    }

    /// Whether every drawn cell can be aligned vertically within its row.
    pub open spec fn cells_fit(self) -> bool {
        forall|x: nat, y: nat| x < self.cols() && y < self.rows() && self.valid(x as int, y as int)
            ==> #[trigger] fits_vertically(self.h_aligned(x, y).0, self.heights[y as int] as nat)
    }
}

/// The drawing of a table from its inputs: alignment filler uses `filler_symbol`, and the
/// positions no child is drawn on show the filler symbol in the filler colors when `fill`
/// is set, else a space in the normal colors. Alignment filler takes the same colors.
pub open spec fn table_spec(table: Seq<Seq<usize>>, contents: Seq<PixelMap>,
    aligns: Seq<(HorizontalAlignment, VerticalAlignment)>, heights: Seq<usize>, widths: Seq<usize>,
    colors: ColorConfig, fill: bool, filler_symbol: Seq<char>) -> TableSpec {
    let fg = if fill { colors.filler_fg_color.value } else { colors.fg_color.value };
    let bg = if fill { colors.filler_bg_color.value } else { colors.bg_color.value };
    let symbol = if fill { filler_symbol } else { seq![' '] };
    TableSpec {
        table,
        contents,
        aligns,
        widths,
        heights,
        filler: plain_pixel(filler_symbol, fg, bg),
        canvas: plain_pixel(symbol, fg, bg),
    }
}

/// Prefix sums grow with the prefix.
pub proof fn lemma_prefix_sum_mono(s: Seq<usize>, a: int, b: int)
    requires
        0 <= a <= b,
    ensures
        prefix_sum(s, a) <= prefix_sum(s, b),
    decreases b - a,
{
    if a < b {
        lemma_prefix_sum_mono(s, a, b - 1);
    }
}

proof fn lemma_h_offset_bound(c: Seq<Seq<PixelView>>, h: HorizontalAlignment, total: nat, e: PixelView)
    ensures
        aligned_horizontally(c, h, total, e).1 <= total,
{
}

proof fn lemma_v_offset_bound(c: Seq<Seq<PixelView>>, v: VerticalAlignment, total: nat, e: PixelView)
    ensures
        aligned_vertically(c, v, total, e).1 <= total,
{
}

/// Draw the content of the children in a table. Cells are drawn column by column, top to
/// bottom; each child's content is aligned within its cell and written over a canvas of
/// filler. A child referred to by more than one cell is drawn in the first of them; the
/// others show only filler. Returns the drawn table and, for each child, the position
/// (within the table) of the last cell it was drawn in.
pub fn draw_table(child_table: &Vec<Vec<usize>>, content_list: Vec<PixelMap>,
    alignments: &Vec<(HorizontalAlignment, VerticalAlignment)>, row_heights: &Vec<usize>,
    col_widths: &Vec<usize>, colors: &ColorConfig, fill: bool, filler_symbol: String)
    -> (r: (PixelMap, Vec<Option<Coordinates>>))
    requires
        alignments@.len() == content_list@.len(),
        prefix_sum(col_widths@, col_widths@.len() as int) <= usize::MAX,
        prefix_sum(row_heights@, row_heights@.len() as int) <= usize::MAX,
        table_spec(table_view(child_table@), content_list@, alignments@, row_heights@, col_widths@, *colors,
            fill, filler_symbol@).cells_fit(),
    ensures
        ({
            let spec = table_spec(table_view(child_table@), content_list@, alignments@, row_heights@,
                col_widths@, *colors, fill, filler_symbol@);
            &&& grid(&r.0) == spec.drawn()
            &&& r.1@.len() == content_list@.len()
            &&& forall|i: int| 0 <= i < content_list@.len() ==> #[trigger] r.1@[i]
                == spec.position_before(i, col_widths@.len() as nat, 0)
        }),
{
    let ghost spec = table_spec(table_view(child_table@), content_list@, alignments@, row_heights@,
        col_widths@, *colors, fill, filler_symbol@);
    let ghost orig = content_list@;
    let n = content_list.len();
    let rows = row_heights.len();
    let cols = col_widths.len();
    let (symbol, fg, bg) = if fill {
        (filler_symbol.clone(), colors.get_filler_fg_color(), colors.get_filler_bg_color())
    } else {
        (String::from_str(" "), colors.get_fg_color(), colors.get_bg_color())
    };
    proof {
        reveal_strlit(" ");
        assert(" "@ =~= seq![' ']);
    }
    let canvas = Pixel::new(symbol, fg, bg);
    assert(canvas@ == spec.canvas);
    let mut contents = content_list;
    let mut positions: Vec<Option<Coordinates>> = Vec::new();
    let mut i: usize = 0;
    while i < n
        invariant
            i <= n,
            positions@.len() == i,
            forall|k: int| 0 <= k < i ==> #[trigger] positions@[k] == None::<Coordinates>,
        decreases n - i,
    {
        positions.push(None);
        i = i + 1;
    }
    let mut result: PixelMap = Vec::new();
    let mut write_x: usize = 0;
    let mut x: usize = 0;
    while x < cols
        invariant
            x <= cols,
            n == orig.len(),
            rows == spec.rows(),
            cols == spec.cols(),
            spec == table_spec(table_view(child_table@), orig, alignments@, row_heights@, col_widths@,
                *colors, fill, filler_symbol@),
            alignments@.len() == n,
            canvas@ == spec.canvas,
            spec.filler == plain_pixel(filler_symbol@, fg, bg),
            prefix_sum(col_widths@, cols as int) <= usize::MAX,
            prefix_sum(row_heights@, rows as int) <= usize::MAX,
            spec.cells_fit(),
            write_x as nat == prefix_sum(col_widths@, x as int),
            contents@.len() == n,
            forall|k: int| 0 <= k < n ==> #[trigger] grid_of(contents@[k]@) == if spec.taken_before(
                k, x as nat, 0) { Seq::empty() } else { grid_of(orig[k]@) },
            positions@.len() == n,
            forall|k: int| 0 <= k < n ==> #[trigger] positions@[k] == spec.position_before(k,
                x as nat, 0),
            grid(&result) == concat(Seq::new(x as nat, |x2: int| spec.table_columns(x2 as nat))),
        decreases cols - x,
    {
        // Align the content of every cell of this column.
        let mut cells: Vec<PixelMap> = Vec::new();
        let mut write_y: usize = 0;
        let mut y: usize = 0;
        while y < rows
            invariant
                y <= rows,
                x < cols,
                n == orig.len(),
                rows == spec.rows(),
                cols == spec.cols(),
                spec == table_spec(table_view(child_table@), orig, alignments@, row_heights@, col_widths@,
                    *colors, fill, filler_symbol@),
                alignments@.len() == n,
                spec.filler == plain_pixel(filler_symbol@, fg, bg),
                prefix_sum(col_widths@, cols as int) <= usize::MAX,
                prefix_sum(row_heights@, rows as int) <= usize::MAX,
                spec.cells_fit(),
                write_x as nat == prefix_sum(col_widths@, x as int),
                write_y as nat == prefix_sum(row_heights@, y as int),
                contents@.len() == n,
                forall|k: int| 0 <= k < n ==> #[trigger] grid_of(contents@[k]@) == if spec.taken_before(
                    k, x as nat, y as nat) { Seq::empty() } else { grid_of(orig[k]@) },
                positions@.len() == n,
                forall|k: int| 0 <= k < n ==> #[trigger] positions@[k] == spec.position_before(k,
                    x as nat, y as nat),
                cells@.len() == y,
                forall|j: int| 0 <= j < y ==> #[trigger] grid(&cells@[j]) == if spec.valid(x as int, j) {
                    spec.v_aligned(x as nat, j as nat).0 } else { Seq::empty() },
            decreases rows - y,
        {
            proof {
                lemma_prefix_sum_mono(row_heights@, y + 1, rows as int);
                lemma_prefix_sum_mono(col_widths@, x + 1, cols as int);
            }
            if x < child_table.len() && y < child_table[x].len() && child_table[x][y] < n {
                let idx = child_table[x][y];
                assert(spec.valid(x as int, y as int));
                assert(spec.child(x as int, y as int) == idx);
                let ghost before = contents@;
                let mut taken: PixelMap = Vec::new();
                contents.set_and_swap(idx, &mut taken);
                assert(grid(&taken) == spec.cell_content(x as nat, y as nat));
                let (halign, valign) = alignments[idx];
                let (a1, ox) = align_content_horizontally(taken, halign, col_widths[x],
                    filler_symbol.clone(), fg, bg);
                assert((grid(&a1), ox as nat) == spec.h_aligned(x as nat, y as nat));
                assert(fits_vertically(spec.h_aligned(x as nat, y as nat).0,
                    spec.heights[y as int] as nat));
                let (a2, oy) = align_content_vertically(a1, valign, row_heights[y],
                    filler_symbol.clone(), fg, bg);
                assert((grid(&a2), oy as nat) == spec.v_aligned(x as nat, y as nat));
                proof {
                    lemma_h_offset_bound(spec.cell_content(x as nat, y as nat), halign,
                        col_widths@[x as int] as nat, spec.filler);
                    lemma_v_offset_bound(spec.h_aligned(x as nat, y as nat).0, valign,
                        row_heights@[y as int] as nat, spec.filler);
                }
                let position = Coordinates::new(write_x + ox, write_y + oy);
                assert(position == spec.cell_position(x as nat, y as nat));
                positions.set(idx, Some(position));
                cells.push(a2);
                assert forall|k: int| 0 <= k < n implies #[trigger] grid_of(contents@[k]@)
                    == if spec.taken_before(k, x as nat, (y + 1) as nat) { Seq::empty() }
                    else { grid_of(orig[k]@) } by {
                    if k != idx {
                        assert(contents@[k] == before[k]);
                    } else {
                        assert(contents@[k]@ =~= Seq::<Vec<Pixel>>::empty());
                        assert(grid_of(contents@[k]@) =~= Seq::empty());
                    }
                }
            } else {
                assert(!spec.valid(x as int, y as int));
                cells.push(Vec::new());
                assert(grid(&cells@[y as int]) =~= Seq::empty());
            }
            write_y = write_y + row_heights[y];
            y = y + 1;
        }

        // Emit the screen columns of this table column.
        let ghost done = grid(&result);
        let mut cx: usize = 0;
        while cx < col_widths[x]
            invariant
                cx <= col_widths@[x as int],
                x < cols,
                rows == spec.rows(),
                rows == row_heights@.len(),
                cols == col_widths@.len(),
                spec == table_spec(table_view(child_table@), orig, alignments@, row_heights@, col_widths@,
                    *colors, fill, filler_symbol@),
                cells@.len() == rows,
                canvas@ == spec.canvas,
                forall|j: int| 0 <= j < rows ==> #[trigger] grid(&cells@[j]) == if spec.valid(x as int, j) {
                    spec.v_aligned(x as nat, j as nat).0 } else { Seq::empty() },
                grid(&result) == done + spec.table_columns(x as nat).subrange(0, cx as int),
            decreases col_widths@[x as int] - cx,
        {
            let ghost segs = spec.segments(x as nat, cx as int);
            let mut col: Vec<Pixel> = Vec::new();
            let mut y: usize = 0;
            while y < rows
                invariant
                    y <= rows,
                    x < cols,
                    cx < col_widths@[x as int],
                    rows == spec.rows(),
                    rows == row_heights@.len(),
                    cols == col_widths@.len(),
                    spec == table_spec(table_view(child_table@), orig, alignments@, row_heights@, col_widths@,
                        *colors, fill, filler_symbol@),
                    cells@.len() == rows,
                    canvas@ == spec.canvas,
                    segs == spec.segments(x as nat, cx as int),
                    forall|j: int| 0 <= j < rows ==> #[trigger] grid(&cells@[j]) == if spec.valid(x as int, j) {
                        spec.v_aligned(x as nat, j as nat).0 } else { Seq::empty() },
                    column(col@) == concat(segs.subrange(0, y as int)),
                decreases rows - y,
            {
                let ghost base = column(col@);
                let mut cy: usize = 0;
                while cy < row_heights[y]
                    invariant
                        cy <= row_heights@[y as int],
                        y < rows,
                        x < cols,
                        cx < col_widths@[x as int],
                        rows == spec.rows(),
                        rows == row_heights@.len(),
                        cols == col_widths@.len(),
                        spec == table_spec(table_view(child_table@), orig, alignments@, row_heights@, col_widths@,
                            *colors, fill, filler_symbol@),
                        cells@.len() == rows,
                        canvas@ == spec.canvas,
                        segs == spec.segments(x as nat, cx as int),
                        grid(&cells@[y as int]) == if spec.valid(x as int, y as int) {
                            spec.v_aligned(x as nat, y as nat).0 } else { Seq::empty() },
                        column(col@) == base + segs[y as int].subrange(0, cy as int),
                    decreases row_heights@[y as int] - cy,
                {
                    let cell = &cells[y];
                    let pixel = if cx < cell.len() && cy < cell[cx].len() {
                        cell[cx][cy].duplicate()
                    } else {
                        canvas.duplicate()
                    };
                    proof {
                        let m = grid(&cells@[y as int]);
                        assert(m.len() == cell@.len());
                        if cx < cell@.len() {
                            assert(m[cx as int] == column(cell@[cx as int]@));
                            assert(m[cx as int].len() == cell@[cx as int]@.len());
                            if cy < cell@[cx as int]@.len() {
                                assert(m[cx as int][cy as int] == cell@[cx as int]@[cy as int]@);
                            }
                        }
                        if !spec.valid(x as int, y as int) {
                            assert(m.len() == 0);
                        }
                    }
                    assert(pixel@ == spec.cell_pixel(x as nat, y as nat, cx as int, cy as int));
                    let ghost old_col = col@;
                    col.push(pixel);
                    proof { lemma_column_push(old_col, pixel); }
                    cy = cy + 1;
                    assert(column(col@) =~= base + segs[y as int].subrange(0, cy as int));
                }
                assert(segs[y as int].subrange(0, cy as int) =~= segs[y as int]);
                assert(segs.subrange(0, y + 1).drop_last() =~= segs.subrange(0, y as int));
                y = y + 1;
            }
            assert(segs.subrange(0, y as int) =~= segs);
            let ghost cv = col;
            let ghost old_res = result@;
            result.push(col);
            proof { lemma_grid_push(old_res, cv); }
            cx = cx + 1;
            assert(grid(&result) =~= done + spec.table_columns(x as nat).subrange(0, cx as int));
        }
        proof {
            let outer = Seq::new((x + 1) as nat, |x2: int| spec.table_columns(x2 as nat));
            assert(outer.drop_last() =~= Seq::new(x as nat, |x2: int| spec.table_columns(x2 as nat)));
            assert(spec.table_columns(x as nat).subrange(0, cx as int) =~= spec.table_columns(x as nat));
            lemma_prefix_sum_mono(col_widths@, x + 1, cols as int);
        }
        write_x = write_x + col_widths[x];
        x = x + 1;
    }
    assert(Seq::new(x as nat, |x2: int| spec.table_columns(x2 as nat)) =~= Seq::new(spec.cols(),
        |x2: int| spec.table_columns(x2 as nat)));
    (result, positions)
}

/// The table model as a value: `cols` columns of `rows` entries.
pub open spec fn model_table(o: LayoutOrientation, rows: nat, cols: nat, n: nat) -> Seq<Seq<usize>> {
    Seq::new(cols, |x: int| Seq::new(rows, |y: int| model_entry(o, rows as int, cols as int, n as int, x, y) as usize))
}

proof fn lemma_model_table(t: Seq<Seq<usize>>, o: LayoutOrientation, rows: nat, cols: nat, n: nat)
    requires
        is_table_model(t, o, rows, cols, n),
    ensures
        t == model_table(o, rows, cols, n),
{
    let m = model_table(o, rows, cols, n);
    assert forall|x: int| 0 <= x < cols implies t[x] =~= #[trigger] m[x] by {
        assert forall|y: int| 0 <= y < rows implies t[x][y] == m[x][y] by {
            assert(t[x][y] as int == model_entry(o, rows as int, cols as int, n as int, x, y));
        }
    }
    assert(t =~= m);
}

/// Rows and columns of a table mode layout with `n` children.
pub open spec fn table_dims(config: TableConfig, n: nat) -> (nat, nat) {
    rows_and_cols(config.rows.value as nat, config.cols.value as nat, n)
}

/// Whether a table mode layout with `n` children draws nothing: neither rows nor columns
/// are configured, or the table has no rows or no columns.
pub open spec fn table_is_empty(config: TableConfig, n: nat) -> bool {
    (config.rows.value == 0 && config.cols.value == 0)
        || table_dims(config, n).0 == 0 || table_dims(config, n).1 == 0
}

/// The default row height: the configured one, or the available height divided by the rows.
pub open spec fn default_row_height(config: TableConfig, available: nat, rows: nat) -> nat {
    if config.row_default_height.value == 0 { available / rows } else { config.row_default_height.value as nat }
}

/// The default column width: the configured one, or the available width divided by the
/// columns.
pub open spec fn default_col_width(config: TableConfig, available: nat, cols: nat) -> nat {
    if config.col_default_width.value == 0 { available / cols } else { config.col_default_width.value as nat }
}

/// The drawing of a table mode layout (when it is not empty).
pub open spec fn table_mode_spec(config: TableConfig, o: LayoutOrientation, effective_size: Size,
    contents: Seq<PixelMap>, aligns: Seq<(HorizontalAlignment, VerticalAlignment)>,
    colors: ColorConfig, fill: bool, filler_symbol: Seq<char>) -> TableSpec {
    let (rows, cols) = table_dims(config, contents.len());
    let table = model_table(o, rows, cols, contents.len());
    let dh = default_row_height(config, effective_size.height as nat, rows);
    let dw = default_col_width(config, effective_size.width as nat, cols);
    let heights = Seq::new(rows, |y: int| row_height(config, cols, table, contents, dh, y) as usize);
    let widths = Seq::new(cols, |x: int| col_width(config, rows, table, contents, dw, x) as usize);
    table_spec(table, contents, aligns, heights, widths, colors, fill, filler_symbol)
}

/// Whether a non-empty table mode layout can be drawn: its model can be built, a row or
/// column sized by content has children to measure, the table fits in memory and every
/// cell can be aligned.
pub open spec fn table_mode_defined(config: TableConfig, o: LayoutOrientation, effective_size: Size,
    contents: Seq<PixelMap>, aligns: Seq<(HorizontalAlignment, VerticalAlignment)>,
    colors: ColorConfig, fill: bool, filler_symbol: Seq<char>) -> bool {
    let (rows, cols) = table_dims(config, contents.len());
    let spec = table_mode_spec(config, o, effective_size, contents, aligns, colors, fill, filler_symbol);
    !table_is_empty(config, contents.len()) ==> {
        &&& model_defined(o, rows, cols, contents.len())
        &&& (!config.force_default_row_height.value || !config.force_default_col_width.value)
                ==> contents.len() > 0
        &&& prefix_sum(spec.widths, cols as int) <= usize::MAX
        &&& prefix_sum(spec.heights, rows as int) <= usize::MAX
        &&& spec.cells_fit()
    }
}

/// A list of `n` absent positions.
fn no_positions(n: usize) -> (r: Vec<Option<Coordinates>>)
    ensures
        r@.len() == n,
        forall|i: int| 0 <= i < n ==> #[trigger] r@[i] == None::<Coordinates>,
{
    let mut r: Vec<Option<Coordinates>> = Vec::new();
    let mut i: usize = 0;
    while i < n
        invariant
            i <= n,
            r@.len() == i,
            forall|k: int| 0 <= k < i ==> #[trigger] r@[k] == None::<Coordinates>,
        decreases n - i,
    {
        r.push(None);
        i = i + 1;
    }
    r
}

/// The contents of a table mode layout: the children's contents placed in a table whose
/// shape comes from the table configuration and orientation, with rows and columns sized
/// by the defaults or by the largest child. Returns the drawn table and each child's
/// position; an empty table draws nothing and places no child.
pub fn get_table_mode_contents(table_config: &TableConfig, orientation: LayoutOrientation,
    effective_size: Size, content_list: Vec<PixelMap>,
    alignments: &Vec<(HorizontalAlignment, VerticalAlignment)>, colors: &ColorConfig, fill: bool,
    filler_symbol: String) -> (r: (PixelMap, Vec<Option<Coordinates>>))
    requires
        orientation != LayoutOrientation::Horizontal,
        orientation != LayoutOrientation::Vertical,
        alignments@.len() == content_list@.len(),
        table_mode_defined(*table_config, orientation, effective_size, content_list@,
            alignments@, *colors, fill, filler_symbol@),
    ensures
        r.1@.len() == content_list@.len(),
        table_is_empty(*table_config, content_list@.len()) ==> {
            &&& r.0@.len() == 0
            &&& forall|i: int| 0 <= i < content_list@.len() ==> #[trigger] r.1@[i] == None::<Coordinates>
        },
        !table_is_empty(*table_config, content_list@.len()) ==> {
            let spec = table_mode_spec(*table_config, orientation, effective_size, content_list@,
                alignments@, *colors, fill, filler_symbol@);
            &&& grid(&r.0) == spec.drawn()
            &&& forall|i: int| 0 <= i < content_list@.len() ==> #[trigger] r.1@[i]
                == spec.position_before(i, spec.cols(), 0)
        },
{
    let n = content_list.len();
    if table_config.get_rows() == 0 && table_config.get_cols() == 0 {
        return (Vec::new(), no_positions(n));
    }
    let (rows, cols) = get_rows_and_cols(table_config, n);
    if rows == 0 || cols == 0 {
        return (Vec::new(), no_positions(n));
    }
    let (child_table, rows, cols) = get_table_model(table_config, orientation, n);
    proof {
        lemma_model_table(table_view(child_table@), orientation, rows as nat, cols as nat, n as nat);
    }
    let ghost table = table_view(child_table@);
    assert(entries_refer_to_children(table, rows as nat, cols as nat, n as nat) || (
        table_config.force_default_row_height.value && table_config.force_default_col_width.value));
    let default_height = if table_config.get_row_default_height() == 0 {
        effective_size.height / rows
    } else {
        table_config.get_row_default_height()
    };
    let default_width = if table_config.get_col_default_width() == 0 {
        effective_size.width / cols
    } else {
        table_config.get_col_default_width()
    };
    let row_heights = get_row_heights(table_config, rows, cols, &child_table, &content_list,
        default_height);
    let col_widths = get_col_widths(table_config, rows, cols, &child_table, &content_list,
        default_width);
    let ghost spec = table_mode_spec(*table_config, orientation, effective_size, content_list@,
        alignments@, *colors, fill, filler_symbol@);
    assert(row_heights@ =~= spec.heights);
    assert(col_widths@ =~= spec.widths);
    draw_table(&child_table, content_list, alignments, &row_heights, &col_widths, colors, fill,
        filler_symbol)
}

} // verus!
