//! Wrapping formatted text into lines of a given width: lines end at line breaks, or at the
//! width, where they are cut at the last space when there is one.
use vstd::prelude::*;
use crate::pixel::{Pixel, PixelView, column, grid, lemma_column_push, lemma_grid_push};
use crate::scheduler::names;
use crate::strings::{char_byte_len, char_bytes, chars_in_bytes};
use crate::text::{extended_graphemes, graphemes, occurs_at};

verus! {

/// The first pixel, from the start, whose symbol is the grapheme `g`, and the pixels after
/// it; pixels before it are skipped. `None` when there is no such pixel.
pub open spec fn match_one(pixels: Seq<PixelView>, g: Seq<char>) -> Option<(PixelView, Seq<PixelView>)>
    decreases pixels.len(),
{
    if pixels.len() == 0 {
        None
    } else if pixels[0].symbol == g {
        Some((pixels[0], pixels.drop_first()))
    } else {
        match_one(pixels.drop_first(), g)
    }
}

/// The pixels of a run of graphemes, matched one grapheme after the other from the start
/// of `pixels`, and the pixels left. `None` when the pixels run out.
pub open spec fn take_pixels(pixels: Seq<PixelView>, gs: Seq<Seq<char>>)
    -> Option<(Seq<PixelView>, Seq<PixelView>)>
    decreases gs.len(),
{
    if gs.len() == 0 {
        Some((Seq::empty(), pixels))
    } else {
        match match_one(pixels, gs[0]) {
            None => None,
            Some((p, rest)) => match take_pixels(rest, gs.drop_first()) {
                None => None,
                Some((ps, left)) => Some((seq![p] + ps, left)),
            },
        }
    }
}

/// Index of the first line break of `s`; its length when there is none.
pub open spec fn newline_index(s: Seq<char>) -> nat
    decreases s.len(),
{
    if s.len() == 0 {
        0
    } else if s[0] == '\n' {
        0
    } else {
        1 + newline_index(s.drop_first())
    }
}

/// A line without the carriage return that ended it.
pub open spec fn strip_cr(l: Seq<char>) -> Seq<char> {
    if l.len() > 0 && l.last() == '\r' { l.drop_last() } else { l }
}

/// The lines of a text as std's `str::lines` gives them: split at each line break (a
/// carriage return before it is dropped), with no empty line after a final line break.
pub open spec fn lines_of(s: Seq<char>) -> Seq<Seq<char>>
    decreases s.len(),
{
    if s.len() == 0 {
        Seq::empty()
    } else {
        let k = newline_index(s);
        if k >= s.len() {
            seq![s]
        } else {
            seq![strip_cr(s.take(k as int))] + lines_of(s.skip((k + 1) as int))
        }
    }
}

/// The last position at or before `k` where `pat` occurs in `s`.
pub open spec fn last_occurrence_from(s: Seq<char>, pat: Seq<char>, k: int) -> Option<nat>
    decreases k + 1,
{
    if k < 0 {
        None
    } else if occurs_at(s, pat, k) {
        Some(k as nat)
    } else {
        last_occurrence_from(s, pat, k - 1)
    }
}

/// The last position where `pat` occurs in `s`.
pub open spec fn last_occurrence(s: Seq<char>, pat: Seq<char>) -> Option<nat> {
    last_occurrence_from(s, pat, s.len() - pat.len())
}

/// The pixels of lines ended by line breaks: an empty line gets no pixels, any other line
/// the pixels of its graphemes; and the pixels left.
pub open spec fn line_pixels(lines: Seq<Seq<char>>, pixels: Seq<PixelView>)
    -> Option<(Seq<Seq<PixelView>>, Seq<PixelView>)>
    decreases lines.len(),
{
    if lines.len() == 0 {
        Some((Seq::empty(), pixels))
    } else {
        let first = if lines[0].len() == 0 {
            Some((Seq::<PixelView>::empty(), pixels))
        } else {
            take_pixels(pixels, extended_graphemes(lines[0]))
        };
        match first {
            None => None,
            Some((l, rest)) => match line_pixels(lines.drop_first(), rest) {
                None => None,
                Some((ls, left)) => Some((seq![l] + ls, left)),
            },
        }
    }
}

/// One step of wrapping text: the lines it produces, the pixels left, and how many
/// characters of the text it uses up. The first `span` characters (those that fill the
/// width) are looked at. When they hold line breaks, every line but the last is produced
/// and the text goes on at the last line (after the `span` characters when the last line
/// is empty). Otherwise, when they end in a space they form a line; when they hold a space
/// the line ends before the last one, which is dropped; else they form a line.
pub open spec fn wrap_step(text: Seq<char>, pixels: Seq<PixelView>, span: nat)
    -> Option<(Seq<Seq<PixelView>>, Seq<PixelView>, nat)> {
    let width = span;
    let peek = text.take(width as int);
    let ls = lines_of(peek);
    if ls.len() > 1 {
        match line_pixels(ls.drop_last(), pixels) {
            None => None,
            Some((out, rest)) => if ls.last().len() > 0 {
                match last_occurrence(peek, ls.last()) {
                    Some(p) => Some((out, rest, p)),
                    None => None,
                }
            } else {
                Some((out, rest, width))
            },
        }
    } else if peek.last() == ' ' {
        match take_pixels(pixels, extended_graphemes(peek)) {
            None => None,
            Some((l, rest)) => Some((seq![l], rest, width)),
        }
    } else {
        match last_occurrence(peek, seq![' ']) {
            Some(index) => match take_pixels(pixels, extended_graphemes(peek.take(index as int))) {
                None => None,
                Some((l, rest)) => if rest.len() == 0 { None } else { Some((seq![l], rest.drop_first(), index + 1)) },
            },
            None => match take_pixels(pixels, extended_graphemes(peek)) {
                None => None,
                Some((l, rest)) => Some((seq![l], rest, width)),
            },
        }
    }
}

/// The lines of pixels that text wrapped at `width` bytes gives: no lines for width 0; the
/// remaining pixels as the last line once the text left takes less than `width` bytes in
/// UTF-8; before that, one [`wrap_step`] after another on the characters that take the first
/// `width` bytes. `None` where byte `width` falls inside a character, where the pixels run
/// out, or where a step would use up no text (which cannot happen as the last line follows
/// a line break).
pub open spec fn wrapped(text: Seq<char>, pixels: Seq<PixelView>, width: nat) -> Option<Seq<Seq<PixelView>>>
    decreases text.len(),
{
    if width == 0 {
        Some(Seq::empty())
    } else if vstd::utf8::encode_utf8(text).len() < width {
        Some(seq![pixels])
    } else {
        match chars_in_bytes(text, width) {
            None => None,
            Some(span) => match wrap_step(text, pixels, span) {
                None => None,
                Some((out, rest, cut)) => if cut == 0 || cut > text.len() {
                    None
                } else {
                    match wrapped(text.skip(cut as int), rest, width) {
                        None => None,
                        Some(more) => Some(out + more),
                    }
                },
            },
        }
    }
}

/// How the first bytes of a text end: the text takes fewer of them, they end inside a
/// character, or they are the given number of characters.
enum ByteSpan {
    Short,
    Inside,
    Chars(usize),
}

/// Where the first `width` bytes of the UTF-8 encoding of `cs[pos..]` end.
fn byte_span(cs: &Vec<char>, pos: usize, width: usize) -> (r: ByteSpan)
    requires
        width > 0,
        pos <= cs@.len(),
    ensures
        match r {
            ByteSpan::Short => vstd::utf8::encode_utf8(cs@.skip(pos as int)).len() < width,
            ByteSpan::Inside => vstd::utf8::encode_utf8(cs@.skip(pos as int)).len() >= width
                && chars_in_bytes(cs@.skip(pos as int), width as nat) is None,
            ByteSpan::Chars(k) => vstd::utf8::encode_utf8(cs@.skip(pos as int)).len() >= width
                && chars_in_bytes(cs@.skip(pos as int), width as nat) == Some(k as nat)
                && pos + k <= cs@.len(),
        },
{
    let mut i: usize = pos;
    let mut rem: usize = width;
    while rem > 0
        invariant
            pos <= i <= cs@.len(),
            rem <= width,
            vstd::utf8::encode_utf8(cs@.skip(pos as int)).len() - width
                == vstd::utf8::encode_utf8(cs@.skip(i as int)).len() - rem,
            chars_in_bytes(cs@.skip(pos as int), width as nat) == (match chars_in_bytes(cs@.skip(i as int), rem as nat) {
                Some(k) => Some((k + i - pos) as nat),
                None => None,
            }),
        decreases cs@.len() - i,
    {
        let ghost t = cs@.skip(i as int);
        if i == cs.len() {
            assert(t.len() == 0);
            return ByteSpan::Short;
        }
        assert(t[0] == cs@[i as int]);
        assert(t.drop_first() =~= cs@.skip(i + 1));
        let c = char_byte_len(cs[i]);
        if c > rem {
            assert(chars_in_bytes(t, rem as nat) is None);
            return ByteSpan::Inside;
        }
        rem = rem - c;
        i = i + 1;
    }
    ByteSpan::Chars(i - pos)
}

/// `r` with `lines` put before its lines.
pub open spec fn prefixed(lines: Seq<Seq<PixelView>>, r: Option<Seq<Seq<PixelView>>>)
    -> Option<Seq<Seq<PixelView>>> {
    match r {
        None => None,
        Some(more) => Some(lines + more),
    }
}

/// The first pixel from index `from` on whose symbol is `g`.
fn find_pixel(pixels: &Vec<Pixel>, from: usize, g: &String) -> (r: Option<usize>)
    requires
        from <= pixels@.len(),
    ensures
        match r {
            Some(i) => from <= i < pixels@.len() && match_one(column(pixels@).skip(from as int), g@)
                == Some((pixels@[i as int]@, column(pixels@).skip(i + 1))),
            None => match_one(column(pixels@).skip(from as int), g@) is None,
        },
{
    let mut i: usize = from;
    while i < pixels.len()
        invariant
            from <= i <= pixels@.len(),
            match_one(column(pixels@).skip(from as int), g@) == match_one(column(pixels@).skip(i as int), g@),
        decreases pixels@.len() - i,
    {
        assert(column(pixels@).skip(i as int)[0] == pixels@[i as int]@);
        assert(column(pixels@).skip(i as int).drop_first() =~= column(pixels@).skip(i + 1));
        if pixels[i].symbol.eq(g) {
            return Some(i);
        }
        i = i + 1;
    }
    assert(column(pixels@).skip(i as int).len() == 0);
    None
}

/// The pixels of the graphemes `gs`, matched from index `from` on, and the index after the
/// last one used.
pub fn take_pixels_for(gs: &Vec<String>, pixels: &Vec<Pixel>, from: usize) -> (r: Option<(Vec<Pixel>, usize)>)
    requires
        from <= pixels@.len(),
    ensures
        match r {
            Some((taken, next)) => next <= pixels@.len() && take_pixels(column(pixels@).skip(from as int),
                names(gs@)) == Some((column(taken@), column(pixels@).skip(next as int))),
            None => take_pixels(column(pixels@).skip(from as int), names(gs@)) is None,
        },
{
    let ghost whole = take_pixels(column(pixels@).skip(from as int), names(gs@));
    let pl = pixels.len();
    let mut taken: Vec<Pixel> = Vec::new();
    let mut at: usize = from;
    let mut k: usize = 0;
    assert(names(gs@).skip(0) =~= names(gs@));
    while k < gs.len()
        invariant
            k <= gs@.len(),
            from <= at <= pixels@.len(),
            pl == pixels@.len(),
            whole == take_pixels(column(pixels@).skip(from as int), names(gs@)),
            whole == (match take_pixels(column(pixels@).skip(at as int), names(gs@).skip(k as int)) {
                None => None,
                Some((ps, left)) => Some((column(taken@) + ps, left)),
            }),
        decreases gs@.len() - k,
    {
        let ghost rest_gs = names(gs@).skip(k as int);
        assert(rest_gs[0] == gs@[k as int]@);
        assert(rest_gs.drop_first() =~= names(gs@).skip(k + 1));
        match find_pixel(pixels, at, &gs[k]) {
            None => {
                return None;
            },
            Some(i) => {
                let p = pixels[i].duplicate();
                let ghost before = taken@;
                taken.push(p);
                proof {
                    lemma_column_push(before, p);
                    assert(column(taken@) =~= column(before) + seq![p@]);
                    match take_pixels(column(pixels@).skip(i + 1), names(gs@).skip(k + 1)) {
                        None => {},
                        Some((ps, left)) => {
                            assert(column(before) + (seq![p@] + ps) =~= column(taken@) + ps);
                        },
                    }
                }
                at = i + 1;
            },
        }
        k = k + 1;
    }
    assert(names(gs@).skip(k as int) =~= Seq::<Seq<char>>::empty());
    assert(column(taken@) + Seq::<PixelView>::empty() =~= column(taken@));
    Some((taken, at))
}

/// A string holding some characters.
pub(crate) fn chars_to_string(cs: &Vec<char>, from: usize, to: usize) -> (r: String)
    requires
        from <= to <= cs@.len(),
    ensures
        r@ == cs@.subrange(from as int, to as int),
{
    let mut r = String::new();
    let mut i: usize = from;
    while i < to
        invariant
            from <= i <= to,
            to <= cs@.len(),
            r@ == cs@.subrange(from as int, i as int),
        decreases to - i,
    {
        let one = crate::strings::string_of_char(cs[i]);
        r.append(one.as_str());
        i = i + 1;
        assert(r@ =~= cs@.subrange(from as int, i as int));
    }
    r
}

/// The pixels of the characters `cs[from..to]`, matched from pixel index `at` on.
fn pixels_for_chars(cs: &Vec<char>, from: usize, to: usize, pixels: &Vec<Pixel>, at: usize)
    -> (r: Option<(Vec<Pixel>, usize)>)
    requires
        from <= to <= cs@.len(),
        at <= pixels@.len(),
    ensures
        match r {
            Some((taken, next)) => next <= pixels@.len() && take_pixels(column(pixels@).skip(at as int),
                extended_graphemes(cs@.subrange(from as int, to as int)))
                == Some((column(taken@), column(pixels@).skip(next as int))),
            None => take_pixels(column(pixels@).skip(at as int),
                extended_graphemes(cs@.subrange(from as int, to as int))) is None,
        },
{
    let s = chars_to_string(cs, from, to);
    let gs = graphemes(&s);
    take_pixels_for(&gs, pixels, at)
}

proof fn lemma_newline_index(s: Seq<char>, j: int)
    requires
        0 <= j <= s.len(),
        forall|i: int| 0 <= i < j ==> s[i] != '\n',
        j < s.len() ==> s[j] == '\n',
    ensures
        newline_index(s) == j,
    decreases s.len(),
{
    if s.len() > 0 && j > 0 {
        lemma_newline_index(s.drop_first(), j - 1);
    }
}

/// The lines of `cs[start..end]` (see [`lines_of`]), as (from, to) ranges of `cs`.
pub(crate) fn line_ranges(cs: &Vec<char>, start: usize, end: usize) -> (r: Vec<(usize, usize)>)
    requires
        start <= end <= cs@.len(),
    ensures
        r@.map_values(|p: (usize, usize)| cs@.subrange(p.0 as int, p.1 as int))
            == lines_of(cs@.subrange(start as int, end as int)),
        forall|i: int| 0 <= i < r@.len() ==> start <= (#[trigger] r@[i]).0 <= r@[i].1 <= end,
{
    let mut r: Vec<(usize, usize)> = Vec::new();
    let mut pos: usize = start;
    while pos < end
        invariant
            start <= pos <= end,
            end <= cs@.len(),
            lines_of(cs@.subrange(start as int, end as int)) == r@.map_values(|p: (usize, usize)|
                cs@.subrange(p.0 as int, p.1 as int)) + lines_of(cs@.subrange(pos as int, end as int)),
            forall|i: int| 0 <= i < r@.len() ==> start <= (#[trigger] r@[i]).0 <= r@[i].1 <= end,
        decreases end - pos,
    {
        let ghost s = cs@.subrange(pos as int, end as int);
        let mut k: usize = pos;
        while k < end && cs[k] != '\n'
            invariant
                pos <= k <= end,
                end <= cs@.len(),
                forall|i: int| pos <= i < k ==> cs@[i] != '\n',
            decreases end - k,
        {
            k = k + 1;
        }
        proof {
            lemma_newline_index(s, k - pos);
        }
        let ghost before = r@;
        if k >= end {
            r.push((pos, end));
            proof {
                assert(lines_of(s) == seq![s]);
                assert(cs@.subrange(end as int, end as int).len() == 0);
                assert(r@.map_values(|p: (usize, usize)| cs@.subrange(p.0 as int, p.1 as int))
                    =~= before.map_values(|p: (usize, usize)| cs@.subrange(p.0 as int, p.1 as int)).push(s));
                assert(lines_of(cs@.subrange(end as int, end as int)) =~= Seq::<Seq<char>>::empty());
            }
            pos = end;
        } else {
            let to = if k > pos && cs[k - 1] == '\r' { k - 1 } else { k };
            r.push((pos, to));
            proof {
                assert(strip_cr(s.take(k - pos)) =~= cs@.subrange(pos as int, to as int));
                assert(s.skip(k - pos + 1) =~= cs@.subrange(k + 1, end as int));
                assert(r@.map_values(|p: (usize, usize)| cs@.subrange(p.0 as int, p.1 as int))
                    =~= before.map_values(|p: (usize, usize)| cs@.subrange(p.0 as int, p.1 as int))
                        .push(cs@.subrange(pos as int, to as int)));
            }
            pos = k + 1;
        }
        assert(lines_of(cs@.subrange(start as int, end as int)) =~= r@.map_values(|p: (usize, usize)|
            cs@.subrange(p.0 as int, p.1 as int)) + lines_of(cs@.subrange(pos as int, end as int)));
    }
    assert(lines_of(cs@.subrange(pos as int, end as int)) =~= Seq::<Seq<char>>::empty());
    assert(lines_of(cs@.subrange(start as int, end as int)) =~= r@.map_values(|p: (usize, usize)|
        cs@.subrange(p.0 as int, p.1 as int)));
    r
}

/// Whether `cs[a..a + n]` equals `ds[b..b + n]`.
fn same_chars(cs: &Vec<char>, a: usize, ds: &Vec<char>, b: usize, n: usize) -> (r: bool)
    requires
        a + n <= cs@.len(),
        b + n <= ds@.len(),
    ensures
        r == (cs@.subrange(a as int, a + n) == ds@.subrange(b as int, b + n)),
{
    let cl = cs.len();
    let dl = ds.len();
    let mut j: usize = 0;
    while j < n
        invariant
            j <= n,
            a + n <= cs@.len(),
            b + n <= ds@.len(),
            cl == cs@.len(),
            dl == ds@.len(),
            forall|t: int| 0 <= t < j ==> #[trigger] cs@.subrange(a as int, a + n)[t]
                == ds@.subrange(b as int, b + n)[t],
        decreases n - j,
    {
        if cs[a + j] != ds[b + j] {
            assert(cs@.subrange(a as int, a + n)[j as int] != ds@.subrange(b as int, b + n)[j as int]);
            return false;
        }
        j = j + 1;
    }
    assert(cs@.subrange(a as int, a + n) =~= ds@.subrange(b as int, b + n));
    true
}

/// The last position, relative to `start`, where `ps[pat_from..pat_to]` occurs within
/// `cs[start..end]`.
fn last_occurrence_in(cs: &Vec<char>, start: usize, end: usize, ps: &Vec<char>, pat_from: usize,
    pat_to: usize) -> (r: Option<usize>)
    requires
        start <= end <= cs@.len(),
        pat_from <= pat_to <= ps@.len(),
    ensures
        ({
            let s = cs@.subrange(start as int, end as int);
            let pat = ps@.subrange(pat_from as int, pat_to as int);
            match last_occurrence(s, pat) {
                None => r is None,
                Some(p) => r matches Some(i) && i == p,
            }
        }),
{
    let ghost s = cs@.subrange(start as int, end as int);
    let ghost pat = ps@.subrange(pat_from as int, pat_to as int);
    let n = pat_to - pat_from;
    let len = end - start;
    if n > len {
        return None;
    }
    let cl = cs.len();
    let mut k: usize = len - n;
    assert(len - n == s.len() - pat.len());
    loop
        invariant
            k + n <= len,
            end == start + len,
            cl == cs@.len(),
            n == pat.len(),
            len == s.len(),
            n <= len,
            start + len <= cs@.len(),
            pat_from + n <= ps@.len(),
            pat_to == pat_from + n,
            s == cs@.subrange(start as int, end as int),
            pat == ps@.subrange(pat_from as int, pat_to as int),
            last_occurrence(s, pat) == last_occurrence_from(s, pat, k as int),
        decreases k,
    {
        let same = same_chars(cs, start + k, ps, pat_from, n);
        proof {
            assert(s.subrange(k as int, k + n) =~= cs@.subrange(start + k, start + k + n));
        }
        if same {
            return Some(k);
        }
        assert(!occurs_at(s, pat, k as int));
        assert(last_occurrence_from(s, pat, k as int) == last_occurrence_from(s, pat, k - 1));
        if k == 0 {
            return None;
        }
        k = k - 1;
    }
}

/// One wrapping step (see [`wrap_step`]) on `cs[pos..]`, with the pixels from index `at`
/// on. Returns the lines, the index of the first pixel left, and the characters used up.
fn wrap_step_at(cs: &Vec<char>, pos: usize, width: usize, pixels: &Vec<Pixel>, at: usize)
    -> (r: Option<(Vec<Vec<Pixel>>, usize, usize)>)
    requires
        width > 0,
        pos + width <= cs@.len(),
        at <= pixels@.len(),
    ensures
        match r {
            Some((lines, next, used)) => next <= pixels@.len() && wrap_step(cs@.skip(pos as int),
                column(pixels@).skip(at as int), width as nat)
                == Some((grid(&lines), column(pixels@).skip(next as int), used as nat)),
            None => wrap_step(cs@.skip(pos as int), column(pixels@).skip(at as int), width as nat) is None,
        },
{
    let ghost text = cs@.skip(pos as int);
    let ghost px = column(pixels@).skip(at as int);
    let cl = cs.len();
    let end = pos + width;
    let ghost peek = text.take(width as int);
    assert(peek =~= cs@.subrange(pos as int, end as int));
    let ranges = line_ranges(cs, pos, end);
    let ghost ls = lines_of(peek);
    let ghost lview = ranges@.map_values(|p: (usize, usize)| cs@.subrange(p.0 as int, p.1 as int));
    assert(lview == ls);
    assert(lview.len() == ranges@.len());
    if ranges.len() > 1 {
        assert(wrap_step(text, px, width as nat) == (match line_pixels(ls.drop_last(), px) {
            None => None,
            Some((out, rest)) => if ls.last().len() > 0 {
                match last_occurrence(peek, ls.last()) {
                    Some(p) => Some((out, rest, p)),
                    None => None,
                }
            } else {
                Some((out, rest, width as nat))
            },
        }));
        let mut out: Vec<Vec<Pixel>> = Vec::new();
        let mut cur = at;
        let mut j: usize = 0;
        let last = ranges.len() - 1;
        let ghost body = ls.drop_last();
        assert(body.skip(0) =~= body);
        while j < last
            invariant
                j <= last,
                last == ranges@.len() - 1,
                cur <= pixels@.len(),
                px == column(pixels@).skip(at as int),
                text == cs@.skip(pos as int),
                line_pixels(body, px) is None ==> wrap_step(text, px, width as nat) is None,
                lview == ranges@.map_values(|p: (usize, usize)| cs@.subrange(p.0 as int, p.1 as int)),
                body == lview.drop_last(),
                forall|i: int| 0 <= i < ranges@.len() ==> pos <= (#[trigger] ranges@[i]).0 <= ranges@[i].1 <= end,
                end <= cs@.len(),
                line_pixels(body, px) == (match line_pixels(body.skip(j as int), column(pixels@).skip(cur as int)) {
                    None => None,
                    Some((ls2, left)) => Some((grid(&out) + ls2, left)),
                }),
            decreases last - j,
        {
            let (from, to) = ranges[j];
            let ghost rest_lines = body.skip(j as int);
            assert(rest_lines[0] == cs@.subrange(from as int, to as int));
            assert(rest_lines.drop_first() =~= body.skip(j + 1));
            let ghost before = out@;
            if from == to {
                assert(rest_lines[0].len() == 0);
                let empty: Vec<Pixel> = Vec::new();
                let ghost ev = empty;
                out.push(empty);
                proof {
                    lemma_grid_push(before, ev);
                    assert(column(ev@) =~= Seq::<PixelView>::empty());
                    match line_pixels(body.skip(j + 1), column(pixels@).skip(cur as int)) {
                        None => {},
                        Some((ls2, left)) => {
                            assert(grid(&out) + ls2 =~= crate::pixel::grid_of(before) + (seq![Seq::<PixelView>::empty()] + ls2));
                        },
                    }
                }
            } else {
                match pixels_for_chars(cs, from, to, pixels, cur) {
                    None => {
                        assert(line_pixels(body.skip(j as int), column(pixels@).skip(cur as int)) is None);
                        assert(line_pixels(body, px) is None);
                        return None;
                    },
                    Some((line, next)) => {
                        let ghost lv = line;
                        out.push(line);
                        proof {
                            lemma_grid_push(before, lv);
                            match line_pixels(body.skip(j + 1), column(pixels@).skip(next as int)) {
                                None => {},
                                Some((ls2, left)) => {
                                    assert(grid(&out) + ls2 =~= crate::pixel::grid_of(before) + (seq![column(lv@)] + ls2));
                                },
                            }
                        }
                        cur = next;
                    },
                }
            }
            j = j + 1;
        }
        assert(body.skip(j as int) =~= Seq::<Seq<char>>::empty());
        assert(grid(&out) + Seq::<Seq<PixelView>>::empty() =~= grid(&out));
        assert(line_pixels(body, px) == Some((grid(&out), column(pixels@).skip(cur as int))));
        let (lf, lt) = ranges[last];
        assert(ls.last() == cs@.subrange(lf as int, lt as int));
        if lf < lt {
            match last_occurrence_in(cs, pos, end, cs, lf, lt) {
                Some(p) => Some((out, cur, p)),
                None => None,
            }
        } else {
            Some((out, cur, width))
        }
    } else if cs[end - 1] == ' ' {
        assert(peek.last() == cs@[end - 1]);
        assert(wrap_step(text, px, width as nat) == (match take_pixels(px, extended_graphemes(peek)) {
            None => None,
            Some((l, rest)) => Some((seq![l], rest, width as nat)),
        }));
        match pixels_for_chars(cs, pos, end, pixels, at) {
            None => None,
            Some((line, next)) => {
                let mut out: Vec<Vec<Pixel>> = Vec::new();
                let ghost lv = line;
                out.push(line);
                proof {
                    lemma_grid_push(Seq::empty(), lv);
                    assert(grid(&out) =~= seq![column(lv@)]);
                }
                Some((out, next, width))
            },
        }
    } else {
        assert(peek.last() == cs@[end - 1]);
        assert(wrap_step(text, px, width as nat) == (match last_occurrence(peek, seq![' ']) {
            Some(index) => match take_pixels(px, extended_graphemes(peek.take(index as int))) {
                None => None,
                Some((l, rest)) => if rest.len() == 0 { None } else { Some((seq![l], rest.drop_first(), index + 1)) },
            },
            None => match take_pixels(px, extended_graphemes(peek)) {
                None => None,
                Some((l, rest)) => Some((seq![l], rest, width as nat)),
            },
        }));
        let space: Vec<char> = vec![' '];
        assert(space@.subrange(0, 1) =~= seq![' ']);
        match last_occurrence_in(cs, pos, end, &space, 0, 1) {
            Some(index) => {
                proof {
                    assert(index + 1 <= width) by {
                        assert(occurs_at(peek, seq![' '], index as int)) by {
                            lemma_last_occurrence_found(peek, seq![' '], peek.len() - 1);
                        }
                    }
                }
                assert(peek.take(index as int) =~= cs@.subrange(pos as int, pos + index));
                match pixels_for_chars(cs, pos, pos + index, pixels, at) {
                    None => None,
                    Some((line, next)) => {
                        if next >= pixels.len() {
                            assert(column(pixels@).skip(next as int).len() == 0);
                            assert(last_occurrence(peek, seq![' ']) == Some(index as nat));
                            assert(take_pixels(px, extended_graphemes(peek.take(index as int)))
                                == Some((column(line@), column(pixels@).skip(next as int))));
                            return None;
                        }
                        let mut out: Vec<Vec<Pixel>> = Vec::new();
                        let ghost lv = line;
                        out.push(line);
                        proof {
                            lemma_grid_push(Seq::empty(), lv);
                            assert(grid(&out) =~= seq![column(lv@)]);
                            assert(column(pixels@).skip(next as int).drop_first() =~= column(pixels@).skip(next + 1));
                        }
                        Some((out, next + 1, index + 1))
                    },
                }
            },
            None => match pixels_for_chars(cs, pos, end, pixels, at) {
                None => None,
                Some((line, next)) => {
                    let mut out: Vec<Vec<Pixel>> = Vec::new();
                    let ghost lv = line;
                    out.push(line);
                    proof {
                        lemma_grid_push(Seq::empty(), lv);
                        assert(grid(&out) =~= seq![column(lv@)]);
                    }
                    Some((out, next, width))
                },
            },
        }
    }
}

/// A position [`last_occurrence_from`] finds is an occurrence at or before where it
/// started looking.
proof fn lemma_last_occurrence_found(s: Seq<char>, pat: Seq<char>, k: int)
    ensures
        match last_occurrence_from(s, pat, k) {
            Some(p) => occurs_at(s, pat, p as int) && p <= k,
            None => true,
        },
    decreases k + 1,
{
    if k >= 0 && !occurs_at(s, pat, k) {
        lemma_last_occurrence_found(s, pat, k - 1);
    }
}

/// Wrap text into lines for a width of `width`, taking the pixels of the graphemes of
/// each line from `pixels` in order (see [`wrapped`]): lines end at line breaks, or at the
/// width, where they are cut after a space at their end or at their last space (which is
/// dropped). The width is measured in bytes of the text's UTF-8 encoding: once the text left
/// takes less than `width` bytes, all remaining pixels form the last line. Returns `None`
/// when byte `width` of what is left falls inside a character or the pixels run out.
pub fn wrap_text(text: &String, width: usize, pixels: &Vec<Pixel>) -> (r: Option<Vec<Vec<Pixel>>>)
    ensures
        match wrapped(text@, column(pixels@), width as nat) {
            None => r is None,
            Some(lines) => r is Some && grid(&r->0) == lines,
        },
{
    let ghost goal = wrapped(text@, column(pixels@), width as nat);
    if width == 0 {
        return Some(Vec::new());
    }
    let n = text.as_str().unicode_len();
    let mut cs: Vec<char> = Vec::new();
    let mut i: usize = 0;
    while i < n
        invariant
            i <= n,
            n == text@.len(),
            cs@ == text@.take(i as int),
        decreases n - i,
    {
        cs.push(text.as_str().get_char(i));
        i = i + 1;
        assert(cs@ =~= text@.take(i as int));
    }
    assert(cs@ =~= text@);
    let mut out: Vec<Vec<Pixel>> = Vec::new();
    let mut pos: usize = 0;
    let mut at: usize = 0;
    assert(cs@.skip(0) =~= cs@);
    assert(column(pixels@).skip(0) =~= column(pixels@));
    assert(grid(&out) + Seq::<Seq<PixelView>>::empty() =~= Seq::<Seq<PixelView>>::empty());
    loop
        invariant
            pos <= cs@.len(),
            at <= pixels@.len(),
            width > 0,
            cs@ == text@,
            goal == wrapped(text@, column(pixels@), width as nat),
            goal == prefixed(grid(&out), wrapped(cs@.skip(pos as int), column(pixels@).skip(at as int), width as nat)),
        ensures
            pos <= cs@.len(),
            at <= pixels@.len(),
            goal == prefixed(grid(&out), wrapped(cs@.skip(pos as int), column(pixels@).skip(at as int), width as nat)),
            vstd::utf8::encode_utf8(cs@.skip(pos as int)).len() < width,
        decreases cs@.len() - pos,
    {
        let ghost rest_text = cs@.skip(pos as int);
        let span = match byte_span(&cs, pos, width) {
            ByteSpan::Short => {
                break;
            },
            ByteSpan::Inside => {
                return None;
            },
            ByteSpan::Chars(k) => k,
        };
        match wrap_step_at(&cs, pos, span, pixels, at) {
            None => {
                return None;
            },
            Some((lines, next, cut)) => {
                if cut == 0 || cut > cs.len() - pos {
                    return None;
                }
                let ghost lv = grid(&lines);
                let ghost before = grid(&out);
                let mut k: usize = 0;
                let mut lines = lines;
                while k < lines.len()
                    invariant
                        k <= lines@.len(),
                        grid(&lines) == lv,
                        grid(&out) == before + lv.take(k as int),
                    decreases lines@.len() - k,
                {
                    let col = crate::pixel::copy_column(&lines[k]);
                    let ghost old_out = out@;
                    let ghost cv = col;
                    out.push(col);
                    proof { lemma_grid_push(old_out, cv); }
                    k = k + 1;
                    assert(grid(&out) =~= before + lv.take(k as int));
                }
                assert(lv.take(lines@.len() as int) =~= lv);
                assert(rest_text.skip(cut as int) =~= cs@.skip(pos + cut));
                proof {
                    match wrapped(cs@.skip(pos + cut), column(pixels@).skip(next as int), width as nat) {
                        None => {},
                        Some(more) => {
                            assert(before + (lv + more) =~= grid(&out) + more);
                        },
                    }
                }
                pos = pos + cut;
                at = next;
            },
        }
    }
    let mut last: Vec<Pixel> = Vec::new();
    let mut j: usize = at;
    while j < pixels.len()
        invariant
            at <= j <= pixels@.len(),
            last@ == pixels@.subrange(at as int, j as int),
        decreases pixels@.len() - j,
    {
        last.push(pixels[j].duplicate());
        j = j + 1;
        assert(last@ =~= pixels@.subrange(at as int, j as int));
    }
    proof {
        assert(column(last@) =~= column(pixels@).skip(at as int));
    }
    let ghost before = out@;
    let ghost lv = last;
    out.push(last);
    proof {
        lemma_grid_push(before, lv);
        assert(grid(&out) =~= crate::pixel::grid_of(before) + seq![column(lv@)]);
    }
    Some(out)
}

} // verus!
