//! Text shown by widgets: splitting text into grapheme clusters, and turning markup such as
//! `[b]bold[/b]` into formatted pixels.
use vstd::prelude::*;
use unicode_segmentation::UnicodeSegmentation;
use crate::pixel::{Color, Pixel, PixelView, column, concat, lemma_column_push};
use crate::scheduler::names;

verus! {

/// The extended grapheme clusters of a text, as unicode-segmentation finds them following
/// Unicode Standard Annex #29.
pub uninterp spec fn extended_graphemes(s: Seq<char>) -> Seq<Seq<char>>;

/// Split a text into its extended grapheme clusters with unicode-segmentation's
/// `UnicodeSegmentation::graphemes(s, true)`. The contract claims that the result is the
/// named segmentation of the text, that each cluster is non-empty, and that the clusters
/// put back together give the text (the iterator hands out consecutive slices of the text
/// from its start to its end). Where the cluster boundaries fall is left unsaid.
#[verifier::external_body]
fn split_graphemes(s: &str) -> (r: Vec<String>)
    ensures
        names(r@) == extended_graphemes(s@),
        concat(names(r@)) == s@,
        forall|i: int| 0 <= i < r@.len() ==> (#[trigger] r@[i])@.len() > 0,
{
    s.graphemes(true).map(String::from).collect()
}

/// The extended grapheme clusters of a text (see [`extended_graphemes`]).
pub fn graphemes(s: &String) -> (r: Vec<String>)
    ensures
        names(r@) == extended_graphemes(s@),
        concat(names(r@)) == s@,
        forall|i: int| 0 <= i < r@.len() ==> (#[trigger] r@[i])@.len() > 0,
{
    split_graphemes(s.as_str())
}

/// The lowercase form of a text, as std's `str::to_lowercase` gives it (Unicode's lowercase
/// mapping of each character).
pub uninterp spec fn lowercase_of(s: Seq<char>) -> Seq<char>;

/// The lowercase form of a text. Calls std's `str::to_lowercase`; the contract only names
/// the result (it depends on the text alone).
#[verifier::external_body]
fn to_lowercase(s: &String) -> (r: String)
    ensures
        r@ == lowercase_of(s@),
{
    s.to_lowercase()
}

/// The color a palette gives a name: the first entry with that name.
pub open spec fn palette_lookup(palette: Seq<(Seq<char>, Color)>, name: Seq<char>) -> Option<Color>
    decreases palette.len(),
{
    if palette.len() == 0 {
        None
    } else if palette[0].0 == name {
        Some(palette[0].1)
    } else {
        palette_lookup(palette.drop_first(), name)
    }
}

/// A palette as names and colors.
pub open spec fn palette_view(palette: Seq<(String, Color)>) -> Seq<(Seq<char>, Color)> {
    palette.map_values(|e: (String, Color)| (e.0@, e.1))
}

/// Look a color name up in a palette.
pub fn lookup_color(palette: &Vec<(String, Color)>, name: &String) -> (r: Option<Color>)
    ensures
        r == palette_lookup(palette_view(palette@), name@),
{
    let mut i: usize = 0;
    assert(palette_view(palette@).skip(0) =~= palette_view(palette@));
    while i < palette.len()
        invariant
            i <= palette@.len(),
            palette_lookup(palette_view(palette@), name@)
                == palette_lookup(palette_view(palette@).skip(i as int), name@),
        decreases palette@.len() - i,
    {
        let ghost rest = palette_view(palette@).skip(i as int);
        assert(rest[0] == (palette@[i as int].0@, palette@[i as int].1));
        assert(rest.drop_first() =~= palette_view(palette@).skip(i + 1));
        if palette[i].0.eq(name) {
            return Some(palette[i].1);
        }
        i = i + 1;
    }
    assert(palette_view(palette@).skip(i as int).len() == 0);
    None
}

/// Whether `pat` occurs in `s` at position `k`.
pub open spec fn occurs_at(s: Seq<char>, pat: Seq<char>, k: int) -> bool {
    0 <= k && k + pat.len() <= s.len() && s.subrange(k, k + pat.len()) == pat
}

/// The first position at or after `k` where `pat` occurs in `s`.
pub open spec fn occurrence_from(s: Seq<char>, pat: Seq<char>, k: nat) -> Option<nat>
    decreases s.len() - k,
{
    if k + pat.len() > s.len() {
        None
    } else if s.subrange(k as int, (k + pat.len()) as int) == pat {
        Some(k)
    } else if k >= s.len() {
        None
    } else {
        occurrence_from(s, pat, k + 1)
    }
}

/// The text after the first occurrence of `pat` in `s`.
pub open spec fn after_first(s: Seq<char>, pat: Seq<char>) -> Option<Seq<char>> {
    match occurrence_from(s, pat, 0) {
        Some(k) => Some(s.skip((k + pat.len()) as int)),
        None => None,
    }
}

/// Whether `pat` occurs in `s` at position `k`.
fn matches_at(s: &String, pat: &String, k: usize) -> (r: bool)
    requires
        k + pat@.len() <= s@.len(),
    ensures
        r == (s@.subrange(k as int, k + pat@.len()) == pat@),
{
    let n = pat.as_str().unicode_len();
    let slen = s.as_str().unicode_len();
    let mut j: usize = 0;
    while j < n
        invariant
            j <= n,
            n == pat@.len(),
            k + n <= s@.len(),
            slen == s@.len(),
            forall|t: int| 0 <= t < j ==> s@[k + t] == pat@[t],
        decreases n - j,
    {
        if s.as_str().get_char(k + j) != pat.as_str().get_char(j) {
            assert(s@.subrange(k as int, k + pat@.len())[j as int] != pat@[j as int]);
            return false;
        }
        j = j + 1;
    }
    assert(s@.subrange(k as int, k + pat@.len()) =~= pat@);
    true
}

/// The text after the first occurrence of `pat` in `s` (see [`after_first`]).
pub fn text_after_first(s: &String, pat: &String) -> (r: Option<String>)
    ensures
        match after_first(s@, pat@) {
            Some(t) => r is Some && r->0@ == t,
            None => r is None,
        },
{
    let len = s.as_str().unicode_len();
    let plen = pat.as_str().unicode_len();
    let mut k: usize = 0;
    while k <= len && plen <= len - k
        invariant
            len == s@.len(),
            plen == pat@.len(),
            occurrence_from(s@, pat@, 0) == occurrence_from(s@, pat@, k as nat),
        decreases len + 1 - k,
    {
        if matches_at(s, pat, k) {
            let rest = String::from_str(s.as_str().substring_char(k + plen, len));
            assert(rest@ =~= s@.skip(k + plen));
            return Some(rest);
        }
        proof {
            if k == len {
                assert(s@.subrange(k as int, k + pat@.len()) =~= pat@);
            }
        }
        k = k + 1;
    }
    None
}

/// Whether `s` starts with `prefix`.
pub fn starts_with(s: &String, prefix: &String) -> (r: bool)
    ensures
        r == (prefix@.len() <= s@.len() && s@.subrange(0, prefix@.len() as int) == prefix@),
{
    if prefix.as_str().unicode_len() > s.as_str().unicode_len() {
        return false;
    }
    matches_at(s, prefix, 0)
}

/// Progress of formatting a text: the active formatting, the tag being read, and the text
/// and pixels produced so far. `failed` is set when a color tag names no color.
pub struct FormatProgress {
    pub bold: bool,
    pub underline: bool,
    pub italic: bool,
    pub strike_through: bool,
    pub color: Option<Color>,
    pub bg_color: Option<Color>,
    pub in_tag: bool,
    pub tag: Seq<char>,
    pub escaped: bool,
    pub text: Seq<char>,
    pub pixels: Seq<PixelView>,
    pub failed: bool,
}

/// Progress before any of the text is read.
pub open spec fn format_start() -> FormatProgress {
    FormatProgress {
        bold: false,
        underline: false,
        italic: false,
        strike_through: false,
        color: None,
        bg_color: None,
        in_tag: false,
        tag: Seq::empty(),
        escaped: false,
        text: Seq::empty(),
        pixels: Seq::empty(),
        failed: false,
    }
}

/// The characters of "color" and "bg_color" tags.
pub open spec fn color_word() -> Seq<char> {
    seq!['c', 'o', 'l', 'o', 'r']
}

/// See [`color_word`].
pub open spec fn bg_color_word() -> Seq<char> {
    seq!['b', 'g', '_', 'c', 'o', 'l', 'o', 'r']
}

/// Whether `prefix` starts `s`.
pub open spec fn has_prefix(s: Seq<char>, prefix: Seq<char>) -> bool {
    prefix.len() <= s.len() && s.subrange(0, prefix.len() as int) == prefix
}

/// The color a color tag sets: the palette's color for the text after `word` and `=`.
pub open spec fn tag_color(content: Seq<char>, word: Seq<char>, palette: Seq<(Seq<char>, Color)>)
    -> Option<Color> {
    match after_first(content, word.push('=')) {
        Some(name) => palette_lookup(palette, name),
        None => None,
    }
}

/// The progress after a closing `]` ends a tag. The tag's text (lowercased, after a leading
/// `/` that marks a closing tag) switches bold (`b`), underline (`u`), italic (`i`) or
/// strike-through (`s`) on or off, or sets or clears the foreground (`color=NAME`) or
/// background (`bg_color=NAME`) color; other tags do nothing.
pub open spec fn end_tag(st: FormatProgress, palette: Seq<(Seq<char>, Color)>) -> FormatProgress {
    let close = st.tag.len() > 0 && st.tag[0] == '/';
    tag_effect(st, close, lowercase_of(if close { st.tag.drop_first() } else { st.tag }), palette)
}

/// What a tag does once its text (after a `/` for a closing tag) is lowercased to `content`:
/// `b`, `u`, `i` and `s` switch bold, underline, italic and strike-through on (off when
/// closing), a tag starting with `color` or `bg_color` sets (or when closing clears) the
/// foreground or background color named after the `=` in `palette`, failing when there is
/// no such color; other tags do nothing. The tag is ended either way.
pub open spec fn tag_effect(st: FormatProgress, close: bool, content: Seq<char>, palette: Seq<(Seq<char>, Color)>)
    -> FormatProgress {
    let done = FormatProgress { in_tag: false, tag: Seq::empty(), ..st };
    if content == seq!['b'] {
        FormatProgress { bold: !close, ..done }
    } else if content == seq!['u'] {
        FormatProgress { underline: !close, ..done }
    } else if content == seq!['i'] {
        FormatProgress { italic: !close, ..done }
    } else if content == seq!['s'] {
        FormatProgress { strike_through: !close, ..done }
    } else if has_prefix(content, color_word()) {
        if close {
            FormatProgress { color: None, ..done }
        } else {
            match tag_color(content, color_word(), palette) {
                Some(c) => FormatProgress { color: Some(c), ..done },
                None => FormatProgress { failed: true, ..done },
            }
        }
    } else if has_prefix(content, bg_color_word()) {
        if close {
            FormatProgress { bg_color: None, ..done }
        } else {
            match tag_color(content, bg_color_word(), palette) {
                Some(c) => FormatProgress { bg_color: Some(c), ..done },
                None => FormatProgress { failed: true, ..done },
            }
        }
    } else {
        done
    }
}

/// The pixel a grapheme gets: the default pixel with the grapheme as symbol, the active
/// attributes switched on and the active colors.
pub open spec fn formatted_pixel(st: FormatProgress, g: Seq<char>, default: PixelView) -> PixelView {
    PixelView {
        symbol: g,
        foreground_color: match st.color { Some(c) => c, None => default.foreground_color },
        background_color: match st.bg_color { Some(c) => c, None => default.background_color },
        underline: default.underline || st.underline,
        bold: default.bold || st.bold,
        italic: default.italic || st.italic,
        strike_through: default.strike_through || st.strike_through,
    }
}

/// The progress after reading one grapheme. An unescaped `]` ends a tag; inside a tag the
/// grapheme's first character is added to it; an unescaped `[` starts a tag; any other
/// grapheme becomes a pixel and its first character is added to the text. A backslash
/// escapes the grapheme after it (and is itself shown).
pub open spec fn format_step(st: FormatProgress, g: Seq<char>, default: PixelView,
    palette: Seq<(Seq<char>, Color)>) -> FormatProgress {
    if st.failed {
        st
    } else if g == seq![']'] && !st.escaped {
        end_tag(st, palette)
    } else if st.in_tag {
        FormatProgress { tag: st.tag.push(g[0]), ..st }
    } else if g == seq!['['] && !st.escaped {
        FormatProgress { in_tag: true, ..st }
    } else {
        FormatProgress {
            escaped: g == seq!['\\'],
            pixels: st.pixels.push(formatted_pixel(st, g, default)),
            text: st.text.push(g[0]),
            ..st
        }
    }
}

/// The progress after reading a sequence of graphemes.
pub open spec fn format_run(gs: Seq<Seq<char>>, default: PixelView, palette: Seq<(Seq<char>, Color)>)
    -> FormatProgress
    decreases gs.len(),
{
    if gs.len() == 0 {
        format_start()
    } else {
        format_step(format_run(gs.drop_last(), default, palette), gs.last(), default, palette)
    }
}

/// Once formatting failed it stays failed.
proof fn lemma_failed_stays(gs: Seq<Seq<char>>, i: int, default: PixelView, palette: Seq<(Seq<char>, Color)>)
    requires
        0 <= i <= gs.len(),
        format_run(gs.take(i), default, palette).failed,
    ensures
        format_run(gs, default, palette).failed,
    decreases gs.len() - i,
{
    if i < gs.len() {
        assert(gs.take(i + 1).drop_last() =~= gs.take(i));
        lemma_failed_stays(gs, i + 1, default, palette);
    } else {
        assert(gs.take(i) =~= gs);
    }
}

/// Whether a string is exactly the single character `c`.
fn is_char(s: &String, c: char) -> (r: bool)
    ensures
        r == (s@ == seq![c]),
{
    if s.as_str().unicode_len() == 1 {
        let d = s.as_str().get_char(0);
        if d == c {
            assert(s@ =~= seq![c]);
            true
        } else {
            false
        }
    } else {
        false
    }
}

/// A string holding the given characters.
fn string_of_chars(cs: &Vec<char>) -> (r: String)
    ensures
        r@ == cs@,
{
    let mut r = String::new();
    let mut i: usize = 0;
    while i < cs.len()
        invariant
            i <= cs@.len(),
            r@ == cs@.take(i as int),
        decreases cs@.len() - i,
    {
        let one = crate::strings::string_of_char(cs[i]);
        r.append(one.as_str());
        i = i + 1;
        assert(r@ =~= cs@.take(i as int));
    }
    assert(cs@.take(cs@.len() as int) =~= cs@);
    r
}

/// The progress after an unescaped `]` ends the tag held in `tag` (see [`end_tag`]).
fn finish_tag(tag: &Vec<char>, palette: &Vec<(String, Color)>, bold: &mut bool, underline: &mut bool,
    italic: &mut bool, strike_through: &mut bool, color: &mut Option<Color>, bg_color: &mut Option<Color>)
    -> (ok: bool)
    ensures
        ({
            let st = FormatProgress { bold: *old(bold), underline: *old(underline), italic: *old(italic),
                strike_through: *old(strike_through), color: *old(color), bg_color: *old(bg_color),
                in_tag: true, tag: tag@, escaped: false, text: Seq::empty(), pixels: Seq::empty(),
                failed: false };
            let after = end_tag(st, palette_view(palette@));
            &&& ok == !after.failed
            &&& ok ==> *final(bold) == after.bold && *final(underline) == after.underline
                && *final(italic) == after.italic && *final(strike_through) == after.strike_through
                && *final(color) == after.color && *final(bg_color) == after.bg_color
        }),
{
    let close = tag.len() > 0 && tag[0] == '/';
    let mut body: Vec<char> = Vec::new();
    let mut i: usize = if close { 1 } else { 0 };
    let start = i;
    while i < tag.len()
        invariant
            start <= i <= tag@.len(),
            start == (if close { 1usize } else { 0usize }),
            body@ == tag@.subrange(start as int, i as int),
        decreases tag@.len() - i,
    {
        body.push(tag[i]);
        i = i + 1;
        assert(body@ =~= tag@.subrange(start as int, i as int));
    }
    assert(body@ =~= (if close { tag@.drop_first() } else { tag@ }));
    let raw = string_of_chars(&body);
    let content = to_lowercase(&raw);
    apply_tag(&content, close, palette, bold, underline, italic, strike_through, color, bg_color)
}

/// Apply a tag whose text (after a `/` for a closing tag) was lowercased to `content` (see
/// [`tag_effect`]). Returns whether the tag is valid; then the attributes and colors are as
/// the tag leaves them.
pub fn apply_tag(content: &String, close: bool, palette: &Vec<(String, Color)>, bold: &mut bool,
    underline: &mut bool, italic: &mut bool, strike_through: &mut bool, color: &mut Option<Color>,
    bg_color: &mut Option<Color>) -> (ok: bool)
    ensures
        ({
            let st = FormatProgress { bold: *old(bold), underline: *old(underline), italic: *old(italic),
                strike_through: *old(strike_through), color: *old(color), bg_color: *old(bg_color),
                in_tag: true, tag: Seq::empty(), escaped: false, text: Seq::empty(), pixels: Seq::empty(),
                failed: false };
            let after = tag_effect(st, close, content@, palette_view(palette@));
            &&& ok == !after.failed
            &&& ok ==> *final(bold) == after.bold && *final(underline) == after.underline
                && *final(italic) == after.italic && *final(strike_through) == after.strike_through
                && *final(color) == after.color && *final(bg_color) == after.bg_color
        }),
{
    let color_pat = String::from_str("color=");
    let bg_pat = String::from_str("bg_color=");
    let color_prefix = String::from_str("color");
    let bg_prefix = String::from_str("bg_color");
    proof {
        reveal_strlit("color=");
        reveal_strlit("bg_color=");
        reveal_strlit("color");
        reveal_strlit("bg_color");
        assert(color_pat@ =~= color_word().push('='));
        assert(bg_pat@ =~= bg_color_word().push('='));
        assert(color_prefix@ =~= color_word());
        assert(bg_prefix@ =~= bg_color_word());
    }
    if is_char(content, 'b') {
        *bold = !close;
    } else if is_char(content, 'u') {
        *underline = !close;
    } else if is_char(content, 'i') {
        *italic = !close;
    } else if is_char(content, 's') {
        *strike_through = !close;
    } else if starts_with(content, &color_prefix) {
        if close {
            *color = None;
        } else {
            match text_after_first(content, &color_pat) {
                Some(name) => match lookup_color(palette, &name) {
                    Some(c) => { *color = Some(c); },
                    None => { return false; },
                },
                None => { return false; },
            }
        }
    } else if starts_with(content, &bg_prefix) {
        if close {
            *bg_color = None;
        } else {
            match text_after_first(content, &bg_pat) {
                Some(name) => match lookup_color(palette, &name) {
                    Some(c) => { *bg_color = Some(c); },
                    None => { return false; },
                },
                None => { return false; },
            }
        }
    }
    true
}

/// Turn graphemes with markup into the text they show and one pixel per shown grapheme.
/// Tags in square brackets switch formatting on (`[b]`, `[u]`, `[i]`, `[s]`,
/// `[color=NAME]`, `[bg_color=NAME]`) and off (`[/b]`, ..., `[/color]`, `[/bg_color]`);
/// color names are looked up in `palette`. A backslash escapes the bracket after it.
/// Returns `None` when a color tag names no color of the palette.
pub fn format_graphemes(gs: &Vec<String>, default: &Pixel, palette: &Vec<(String, Color)>)
    -> (r: Option<(String, Vec<Pixel>)>)
    requires
        forall|i: int| 0 <= i < gs@.len() ==> (#[trigger] gs@[i])@.len() > 0,
    ensures
        ({
            let run = format_run(names(gs@), default@, palette_view(palette@));
            match r {
                Some(res) => !run.failed && res.0@ == run.text && column(res.1@) == run.pixels,
                None => run.failed,
            }
        }),
{
    let ghost view = names(gs@);
    let ghost pal = palette_view(palette@);
    let mut bold = false;
    let mut underline = false;
    let mut italic = false;
    let mut strike_through = false;
    let mut color: Option<Color> = None;
    let mut bg_color: Option<Color> = None;
    let mut in_tag = false;
    let mut tag: Vec<char> = Vec::new();
    let mut escaped = false;
    let mut text: Vec<char> = Vec::new();
    let mut pixels: Vec<Pixel> = Vec::new();
    let mut i: usize = 0;
    assert(view.take(0) =~= Seq::<Seq<char>>::empty());
    assert(column(pixels@) =~= Seq::<PixelView>::empty());
    assert(tag@ =~= Seq::<char>::empty());
    assert(text@ =~= Seq::<char>::empty());
    while i < gs.len()
        invariant
            i <= gs@.len(),
            view == names(gs@),
            pal == palette_view(palette@),
            forall|k: int| 0 <= k < gs@.len() ==> (#[trigger] gs@[k])@.len() > 0,
            format_run(view.take(i as int), default@, pal) == (FormatProgress { bold, underline, italic,
                strike_through, color, bg_color, in_tag, tag: tag@, escaped, text: text@,
                pixels: column(pixels@), failed: false }),
        decreases gs@.len() - i,
    {
        let ghost st = format_run(view.take(i as int), default@, pal);
        assert(view.take(i + 1).drop_last() =~= view.take(i as int));
        assert(view.take(i + 1).last() == gs@[i as int]@);
        let g = &gs[i];
        if is_char(g, ']') && !escaped {
            let ok = finish_tag(&tag, palette, &mut bold, &mut underline, &mut italic,
                &mut strike_through, &mut color, &mut bg_color);
            if !ok {
                proof { lemma_failed_stays(view, i + 1, default@, pal); }
                return None;
            }
            in_tag = false;
            tag = Vec::new();
        } else if in_tag {
            tag.push(g.as_str().get_char(0));
        } else if is_char(g, '[') && !escaped {
            in_tag = true;
        } else {
            escaped = is_char(g, '\\');
            let p = Pixel {
                symbol: g.clone(),
                foreground_color: match color { Some(c) => c, None => default.foreground_color },
                background_color: match bg_color { Some(c) => c, None => default.background_color },
                underline: default.underline || underline,
                bold: default.bold || bold,
                italic: default.italic || italic,
                strike_through: default.strike_through || strike_through,
            };
            let ghost before = pixels@;
            pixels.push(p);
            proof { lemma_column_push(before, p); }
            text.push(g.as_str().get_char(0));
        }
        i = i + 1;
        assert(tag@ == format_run(view.take(i as int), default@, pal).tag);
    }
    assert(view.take(gs@.len() as int) =~= view);
    Some((string_of_chars(&text), pixels))
}

/// Turn text with markup into the text it shows and one pixel per shown grapheme (see
/// [`format_graphemes`]); the text is split into extended grapheme clusters first.
pub fn format_text(text: &String, default: &Pixel, palette: &Vec<(String, Color)>)
    -> (r: Option<(String, Vec<Pixel>)>)
    ensures
        ({
            let run = format_run(extended_graphemes(text@), default@, palette_view(palette@));
            match r {
                Some(res) => !run.failed && res.0@ == run.text && column(res.1@) == run.pixels,
                None => run.failed,
            }
        }),
{
    let gs = graphemes(text);
    format_graphemes(&gs, default, palette)
}

} // verus!
