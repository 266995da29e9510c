//! Character-level operations on strings used by the widgets.
use vstd::prelude::*;

verus! {

/// A string holding the single character `c`. Calls std's `String::from(char)`, whose
/// documentation says it allocates a string from a single character.
#[verifier::external_body]
pub fn string_of_char(c: char) -> (s: String)
    ensures
        s@ == seq![c],
{
    String::from(c)
}

/// Number of bytes of the UTF-8 encoding of a character sequence, as std's `str::len`
/// reports it in a `usize`.
pub open spec fn utf8_len(s: Seq<char>) -> nat {
    (vstd::utf8::encode_utf8(s).len() as usize) as nat
}

/// Number of bytes of the UTF-8 encoding of a character.
pub open spec fn char_bytes(c: char) -> nat {
    vstd::utf8::encode_scalar(c as u32).len()
}

/// Number of bytes of the UTF-8 encoding of a character: one below 0x80, two below 0x800,
/// three below 0x10000, else four.
pub fn char_byte_len(c: char) -> (n: usize)
    ensures
        n as nat == char_bytes(c),
        1 <= n <= 4,
{
    proof {
        vstd::utf8::char_is_scalar(c);
    }
    let v = c as u32;
    if v < 0x80 {
        1
    } else if v < 0x800 {
        2
    } else if v < 0x10000 {
        3
    } else {
        4
    }
}

/// How many of the first characters of `s` take up exactly `n` bytes in UTF-8; `None` when
/// byte `n` falls inside a character or past the end of `s`.
pub open spec fn chars_in_bytes(s: Seq<char>, n: nat) -> Option<nat>
    decreases s.len(),
{
    if n == 0 {
        Some(0)
    } else if s.len() == 0 || char_bytes(s[0]) > n {
        None
    } else {
        match chars_in_bytes(s.drop_first(), (n - char_bytes(s[0])) as nat) {
            Some(k) => Some(k + 1),
            None => None,
        }
    }
}

/// Number of bytes of the UTF-8 encoding of a character sequence.
pub open spec fn byte_count(s: Seq<char>) -> nat {
    vstd::utf8::encode_utf8(s).len()
}

/// Every character takes one to four bytes.
pub proof fn lemma_char_bytes(c: char)
    ensures
        1 <= char_bytes(c) <= 4,
{
}

/// A sequence takes no bytes exactly when it is empty.
pub proof fn lemma_byte_count_empty(s: Seq<char>)
    ensures
        (byte_count(s) == 0) == (s.len() == 0),
{
    if s.len() > 0 {
        lemma_char_bytes(s[0]);
    }
}

/// A single character takes its own bytes.
pub proof fn lemma_byte_count_single(c: char)
    ensures
        byte_count(seq![c]) == char_bytes(c),
{
    let s = seq![c];
    assert(s[0] == c);
    assert(s.drop_first() =~= Seq::<char>::empty());
    assert(byte_count(Seq::<char>::empty()) == 0);
}

/// The bytes of two sequences put together are the bytes of each.
pub proof fn lemma_byte_count_concat(a: Seq<char>, b: Seq<char>)
    ensures
        byte_count(a + b) == byte_count(a) + byte_count(b),
    decreases a.len(),
{
    if a.len() == 0 {
        assert(a + b =~= b);
    } else {
        assert((a + b).drop_first() =~= a.drop_first() + b);
        assert((a + b)[0] == a[0]);
        lemma_byte_count_concat(a.drop_first(), b);
    }
}

/// The characters that [`chars_in_bytes`] counts are a prefix of the sequence taking exactly
/// that many bytes.
pub proof fn lemma_chars_in_bytes(s: Seq<char>, n: nat)
    ensures
        match chars_in_bytes(s, n) {
            Some(k) => k <= s.len() && byte_count(s.take(k as int)) == n,
            None => true,
        },
    decreases s.len(),
{
    if n == 0 {
        assert(s.take(0) =~= Seq::<char>::empty());
    } else if s.len() > 0 && char_bytes(s[0]) <= n {
        let m = (n - char_bytes(s[0])) as nat;
        lemma_chars_in_bytes(s.drop_first(), m);
        match chars_in_bytes(s.drop_first(), m) {
            Some(k) => {
                let t = s.take(k + 1 as int);
                assert(t[0] == s[0]);
                assert(t.drop_first() =~= s.drop_first().take(k as int));
            },
            None => {},
        }
    }
}

/// Counting characters by bytes past a whole sequence `a` counts its characters and goes on
/// in what follows.
pub proof fn lemma_chars_in_bytes_after(a: Seq<char>, b: Seq<char>, m: nat)
    ensures
        chars_in_bytes(a + b, byte_count(a) + m) == (match chars_in_bytes(b, m) {
            Some(k) => Some(k + a.len()),
            None => None,
        }),
    decreases a.len(),
{
    if a.len() == 0 {
        assert(a + b =~= b);
    } else {
        assert((a + b).drop_first() =~= a.drop_first() + b);
        assert((a + b)[0] == a[0]);
        lemma_chars_in_bytes_after(a.drop_first(), b, m);
    }
}

/// All the bytes of a sequence are all its characters.
pub proof fn lemma_chars_in_all_bytes(s: Seq<char>)
    ensures
        chars_in_bytes(s, byte_count(s)) == Some(s.len()),
{
    lemma_chars_in_bytes_after(s, Seq::empty(), 0);
    assert(s + Seq::<char>::empty() =~= s);
}

/// A prefix ending on a character boundary stays one when the rest is replaced.
pub proof fn lemma_chars_in_bytes_prefix(s: Seq<char>, n: nat, t: Seq<char>)
    requires
        chars_in_bytes(s, n) is Some,
    ensures
        chars_in_bytes(s.take(chars_in_bytes(s, n)->0 as int) + t, n) == chars_in_bytes(s, n),
{
    let k = chars_in_bytes(s, n)->0;
    lemma_chars_in_bytes(s, n);
    lemma_chars_in_bytes_after(s.take(k as int), t, 0);
}

/// More bytes never hold fewer characters.
pub proof fn lemma_chars_in_bytes_monotone(s: Seq<char>, a: nat, b: nat)
    requires
        a <= b,
        chars_in_bytes(s, a) is Some,
        chars_in_bytes(s, b) is Some,
    ensures
        chars_in_bytes(s, a)->0 <= chars_in_bytes(s, b)->0,
    decreases s.len(),
{
    if a > 0 {
        lemma_chars_in_bytes_monotone(s.drop_first(), (a - char_bytes(s[0])) as nat, (b - char_bytes(s[0])) as nat);
    }
}

/// Two boundaries one byte apart hold one character of one byte.
pub proof fn lemma_chars_in_bytes_next(s: Seq<char>, x: nat)
    requires
        chars_in_bytes(s, x) is Some,
        chars_in_bytes(s, x + 1) is Some,
    ensures
        chars_in_bytes(s, x + 1)->0 == chars_in_bytes(s, x)->0 + 1,
        char_bytes(s[chars_in_bytes(s, x)->0 as int]) == 1,
    decreases s.len(),
{
    lemma_char_bytes(s[0]);
    lemma_chars_in_bytes(s, x + 1);
    if x > 0 {
        let t = s.drop_first();
        let m = (x - char_bytes(s[0])) as nat;
        assert(chars_in_bytes(s, x) == Some(chars_in_bytes(t, m)->0 + 1));
        assert(m + 1 == x + 1 - char_bytes(s[0]));
        assert(chars_in_bytes(s, x + 1) == Some(chars_in_bytes(t, m + 1)->0 + 1));
        lemma_chars_in_bytes_next(t, m);
        lemma_chars_in_bytes(t, m + 1);
        assert(t[chars_in_bytes(t, m)->0 as int] == s[chars_in_bytes(s, x)->0 as int]);
    } else {
        assert(char_bytes(s[0]) == 1);
        assert(chars_in_bytes(s.drop_first(), 0) == Some(0nat));
        assert(chars_in_bytes(s, 1) == Some(1nat));
    }
}

/// Whether byte `n` of the UTF-8 encoding of `s` starts a character or ends the sequence.
pub open spec fn on_boundary(s: Seq<char>, n: nat) -> bool {
    chars_in_bytes(s, n) is Some
}

/// The characters between bytes `from` and `to` of the UTF-8 encoding of `s`, as slicing a
/// `str` by bytes gives them (where both fall on character boundaries).
pub open spec fn byte_slice(s: Seq<char>, from: nat, to: nat) -> Seq<char> {
    s.subrange(chars_in_bytes(s, from)->0 as int, chars_in_bytes(s, to)->0 as int)
}

/// A slice between two boundaries takes as many bytes as lie between them, and its
/// characters lie between those of the boundaries.
pub proof fn lemma_byte_slice(s: Seq<char>, a: nat, b: nat)
    requires
        a <= b,
        on_boundary(s, a),
        on_boundary(s, b),
    ensures
        chars_in_bytes(s, a)->0 <= chars_in_bytes(s, b)->0 <= s.len(),
        byte_count(byte_slice(s, a, b)) == b - a,
        byte_count(s) >= b,
{
    let ka = chars_in_bytes(s, a)->0;
    let kb = chars_in_bytes(s, b)->0;
    lemma_chars_in_bytes_monotone(s, a, b);
    lemma_chars_in_bytes(s, a);
    lemma_chars_in_bytes(s, b);
    assert(s.take(kb as int) =~= s.take(ka as int) + s.subrange(ka as int, kb as int));
    lemma_byte_count_concat(s.take(ka as int), s.subrange(ka as int, kb as int));
    assert(s =~= s.take(kb as int) + s.skip(kb as int));
    lemma_byte_count_concat(s.take(kb as int), s.skip(kb as int));
}

/// Slices that meet join up, and the slice of all bytes is the whole sequence.
pub proof fn lemma_byte_slices_join(s: Seq<char>, a: nat, b: nat, c: nat)
    requires
        a <= b <= c,
        on_boundary(s, a),
        on_boundary(s, b),
        on_boundary(s, c),
    ensures
        byte_slice(s, a, b) + byte_slice(s, b, c) == byte_slice(s, a, c),
{
    lemma_byte_slice(s, a, b);
    lemma_byte_slice(s, b, c);
    assert(byte_slice(s, a, b) + byte_slice(s, b, c) =~= byte_slice(s, a, c));
}

/// The slice from the start to the end is the whole sequence.
pub proof fn lemma_byte_slice_all(s: Seq<char>)
    ensures
        on_boundary(s, 0),
        on_boundary(s, byte_count(s)),
        byte_slice(s, 0, byte_count(s)) == s,
{
    lemma_chars_in_all_bytes(s);
    assert(s.subrange(0, s.len() as int) =~= s);
}

/// How many characters the first `b` bytes of a string hold; `None` when byte `b` falls
/// inside a character or past the end.
pub fn char_index(s: &String, b: usize) -> (r: Option<usize>)
    ensures
        match r {
            Some(k) => chars_in_bytes(s@, b as nat) == Some(k as nat),
            None => chars_in_bytes(s@, b as nat) is None,
        },
{
    let n = char_len(s);
    let mut i: usize = 0;
    let mut rem: usize = b;
    assert(s@.skip(0) =~= s@);
    while rem > 0
        invariant
            i <= n,
            n == s@.len(),
            chars_in_bytes(s@, b as nat) == (match chars_in_bytes(s@.skip(i as int), rem as nat) {
                Some(k) => Some((k + i) as nat),
                None => None,
            }),
        decreases n - i,
    {
        let ghost t = s@.skip(i as int);
        if i == n {
            assert(t.len() == 0);
            return None;
        }
        assert(t[0] == s@[i as int]);
        assert(t.drop_first() =~= s@.skip(i + 1));
        let c = char_byte_len(s.as_str().get_char(i));
        if c > rem {
            return None;
        }
        rem = rem - c;
        i = i + 1;
    }
    Some(i)
}

/// The characters between bytes `from` and `to` of a string (see [`byte_slice`]).
pub fn byte_substring(s: &String, from: usize, to: usize) -> (r: String)
    requires
        from <= to,
        on_boundary(s@, from as nat),
        on_boundary(s@, to as nat),
    ensures
        r@ == byte_slice(s@, from as nat, to as nat),
{
    let a = char_index(s, from).unwrap();
    let b = char_index(s, to).unwrap();
    proof {
        lemma_chars_in_bytes_monotone(s@, from as nat, to as nat);
        lemma_chars_in_bytes(s@, to as nat);
    }
    substring(s, a, b)
}

/// Length of a string in bytes.
pub fn byte_len(s: &String) -> (n: usize)
    ensures
        n as nat == utf8_len(s@),
        byte_count(s@) <= usize::MAX ==> n as nat == byte_count(s@),
{
    s.as_str().len()
}

/// Number of characters of a string.
pub fn char_len(s: &String) -> (n: usize)
    ensures
        n as nat == s@.len(),
{
    s.as_str().unicode_len()
}

/// The characters `from..to` of a string.
pub fn substring(s: &String, from: usize, to: usize) -> (r: String)
    requires
        from <= to <= s@.len(),
    ensures
        r@ == s@.subrange(from as int, to as int),
{
    String::from_str(s.as_str().substring_char(from, to))
}

/// The concatenation of two strings.
pub fn concat2(a: &String, b: &String) -> (r: String)
    ensures
        r@ == a@ + b@,
{
    let mut r = a.clone();
    r.append(b.as_str());
    r
}

/// The concatenation of three strings.
pub fn concat3(a: &String, b: &String, c: &String) -> (r: String)
    ensures
        r@ == a@ + b@ + c@,
{
    let mut r = a.clone();
    r.append(b.as_str());
    r.append(c.as_str());
    r
}

/// Whether a string is empty.
pub fn is_empty_string(s: &String) -> (r: bool)
    ensures
        r == (s@.len() == 0),
{
    char_len(s) == 0
}

} // verus!
