//! Pixels, pixel maps and screen coordinates.
use vstd::prelude::*;

verus! {

broadcast use vstd::seq_lib::group_seq_properties;

/// Terminal colors. Mirrors the colors a terminal backend can draw; the
/// drawing layer converts them to its own representation.
#[derive(Clone, Copy, Debug, PartialEq, Eq, Structural)]
pub enum Color {
    Reset,
    Black,
    DarkGrey,
    Red,
    DarkRed,
    Green,
    DarkGreen,
    Yellow,
    DarkYellow,
    Blue,
    DarkBlue,
    Magenta,
    DarkMagenta,
    Cyan,
    DarkCyan,
    White,
    Grey,
    Rgb { r: u8, g: u8, b: u8 },
    AnsiValue(u8),
}

/// A single position on the screen: a symbol with its colors and text attributes.
#[derive(Clone, Debug, PartialEq, Eq)]
pub struct Pixel {
    /// Symbol drawn on screen.
    pub symbol: String,
    /// Foreground color.
    pub foreground_color: Color,
    /// Background color.
    pub background_color: Color,
    /// Whether the symbol is underlined.
    pub underline: bool,
    /// Whether the symbol is bold.
    pub bold: bool,
    /// Whether the symbol is italic.
    pub italic: bool,
    /// Whether the symbol is struck through.
    pub strike_through: bool,
}

/// The abstract value of a pixel: its symbol as characters, its colors and attributes.
pub struct PixelView {
    pub symbol: Seq<char>,
    pub foreground_color: Color,
    pub background_color: Color,
    pub underline: bool,
    pub bold: bool,
    pub italic: bool,
    pub strike_through: bool,
}

impl View for Pixel {
    type V = PixelView;

    open spec fn view(&self) -> PixelView {
        PixelView {
            symbol: self.symbol@,
            foreground_color: self.foreground_color,
            background_color: self.background_color,
            underline: self.underline,
            bold: self.bold,
            italic: self.italic,
            strike_through: self.strike_through,
        }
    }
}

/// A position on the screen, or within a parent layout.
#[derive(Clone, Copy, Debug, PartialEq, Eq, Structural, Default)]
pub struct Coordinates {
    pub x: usize,
    pub y: usize,
}

impl Coordinates {
    /// Coordinates (x, y).
    pub fn new(x: usize, y: usize) -> (c: Coordinates)
        ensures
            c == (Coordinates { x, y }),
    {
        Coordinates { x, y }
    }
}

/// A position that may lie left of or above the screen.
#[derive(Clone, Copy, Debug, PartialEq, Eq, Structural, Default)]
pub struct IsizeCoordinates {
    pub x: isize,
    pub y: isize,
}

impl IsizeCoordinates {
    /// Coordinates (x, y).
    pub fn new(x: isize, y: isize) -> (c: IsizeCoordinates)
        ensures
            c == (IsizeCoordinates { x, y }),
    {
        IsizeCoordinates { x, y }
    }
}

/// A width and a height.
#[derive(Clone, Copy, Debug, PartialEq, Eq, Structural, Default)]
pub struct Size {
    pub width: usize,
    pub height: usize,
}

impl Size {
    /// A size of `width` by `height`.
    pub fn new(width: usize, height: usize) -> (s: Size)
        ensures
            s == (Size { width, height }),
    {
        Size { width, height }
    }
}

/// The concatenation of a sequence of sequences.
pub open spec fn concat<A>(s: Seq<Seq<A>>) -> Seq<A>
    decreases s.len(),
{
    if s.len() == 0 { Seq::empty() } else { concat(s.drop_last()) + s.last() }
}

/// The sum of the first `k` numbers of `s`.
pub open spec fn prefix_sum(s: Seq<usize>, k: int) -> nat
    decreases k,
{
    if k <= 0 { 0 } else { prefix_sum(s, k - 1) + s[k - 1] as nat }
}

/// A rectangle of pixels, stored column by column: `map[x][y]`.
pub type PixelMap = Vec<Vec<Pixel>>;

/// The pixels of a column.
pub open spec fn column(c: Seq<Pixel>) -> Seq<PixelView> {
    c.map_values(|p: Pixel| p@)
}

/// The columns of a sequence of pixel columns.
pub open spec fn grid_of(m: Seq<Vec<Pixel>>) -> Seq<Seq<PixelView>> {
    m.map_values(|c: Vec<Pixel>| column(c@))
}

/// The columns of a pixel map.
pub open spec fn grid(m: &PixelMap) -> Seq<Seq<PixelView>> {
    grid_of(m@)
}

/// A pixel with the given symbol and colors and no text attributes.
pub open spec fn plain_pixel(symbol: Seq<char>, fg: Color, bg: Color) -> PixelView {
    PixelView {
        symbol,
        foreground_color: fg,
        background_color: bg,
        underline: false,
        bold: false,
        italic: false,
        strike_through: false,
    }
}

impl Pixel {
    /// Create a pixel with a symbol and colors, without text attributes.
    pub fn new(symbol: String, foreground_color: Color, background_color: Color) -> (p: Pixel)
        ensures
            p@ == plain_pixel(symbol@, foreground_color, background_color),
    {
        Pixel {
            symbol,
            foreground_color,
            background_color,
            underline: false,
            bold: false,
            italic: false,
            strike_through: false,
        }
    }

    /// An identical copy of this pixel.
    pub fn duplicate(&self) -> (p: Pixel)
        ensures
            p == *self,
    {
        Pixel {
            symbol: self.symbol.clone(),
            foreground_color: self.foreground_color,
            background_color: self.background_color,
            underline: self.underline,
            bold: self.bold,
            italic: self.italic,
            strike_through: self.strike_through,
        }
    }
}

/// Pushing a pixel on a column pushes its view.
pub proof fn lemma_column_push(c: Seq<Pixel>, p: Pixel)
    ensures
        column(c.push(p)) == column(c).push(p@),
{
    assert(column(c.push(p)) =~= column(c).push(p@));
}

/// The view of a prefix of a column is the prefix of its view.
pub proof fn lemma_column_subrange(c: Seq<Pixel>, i: int)
    requires
        0 <= i <= c.len(),
    ensures
        column(c.subrange(0, i)) == column(c).subrange(0, i),
{
    assert(column(c.subrange(0, i)) =~= column(c).subrange(0, i));
}

/// Pushing a column on a pixel map pushes its view.
pub proof fn lemma_grid_push(m: Seq<Vec<Pixel>>, c: Vec<Pixel>)
    ensures
        grid_of(m.push(c)) == grid_of(m).push(column(c@)),
{
    assert(grid_of(m.push(c)) =~= grid_of(m).push(column(c@)));
}

/// A sequence of `n` copies of a pixel.
pub open spec fn repeat(p: PixelView, n: nat) -> Seq<PixelView> {
    Seq::new(n, |_i: int| p)
}

/// A vector holding `n` copies of `p`.
pub fn repeat_pixel(p: &Pixel, n: usize) -> (v: Vec<Pixel>)
    ensures
        column(v@) == repeat(p@, n as nat),
        v@.len() == n,
{
    let mut v: Vec<Pixel> = Vec::new();
    let mut i: usize = 0;
    while i < n
        invariant
            i <= n,
            column(v@) == repeat(p@, i as nat),
            v@.len() == i,
        decreases n - i,
    {
        let ghost old_v = v@;
        v.push(p.duplicate());
        proof { lemma_column_push(old_v, *p); }
        i = i + 1;
        assert(column(v@) =~= repeat(p@, i as nat));
    }
    v
}

/// A copy of a column of pixels.
pub fn copy_column(c: &Vec<Pixel>) -> (v: Vec<Pixel>)
    ensures
        v@ == c@,
{
    let mut v: Vec<Pixel> = Vec::new();
    let mut i: usize = 0;
    while i < c.len()
        invariant
            i <= c.len(),
            v@ == c@.subrange(0, i as int),
        decreases c.len() - i,
    {
        v.push(c[i].duplicate());
        i = i + 1;
        assert(v@ =~= c@.subrange(0, i as int));
    }
    assert(v@ =~= c@);
    v
}

/// A pixel map that holds a copy of `m`.
pub fn copy_map(m: &PixelMap) -> (r: PixelMap)
    ensures
        r@.len() == m@.len(),
        forall|i: int| 0 <= i < m@.len() ==> r@[i]@ == #[trigger] m@[i]@,
        grid(&r) == grid(m),
{
    let mut r: PixelMap = Vec::new();
    let mut i: usize = 0;
    while i < m.len()
        invariant
            i <= m.len(),
            r@.len() == i,
            forall|k: int| 0 <= k < i ==> r@[k]@ == #[trigger] m@[k]@,
        decreases m.len() - i,
    {
        r.push(copy_column(&m[i]));
        i = i + 1;
    }
    assert(grid(&r) =~= grid(m));
    r
}

} // verus!
