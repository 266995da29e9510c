//! Keys and key bindings: the keys a terminal reports, the modifier flags held with them, and
//! the key map that binds a key with its modifiers to a callback. Looking up a letter finds a
//! binding of the same letter in the other case too.
use vstd::prelude::*;
use std::collections::HashMap;

verus! {

broadcast use vstd::std_specs::hash::group_hash_axioms;

/// A key the terminal reports. The media keys and the modifier keys are told apart by a
/// number of their own.
#[derive(Clone, Copy, Debug, PartialEq, Eq, Structural)]
pub enum KeyCode {
    Backspace,
    Enter,
    Left,
    Right,
    Up,
    Down,
    Home,
    End,
    PageUp,
    PageDown,
    Tab,
    BackTab,
    Delete,
    Insert,
    F(u8),
    Char(char),
    Null,
    Esc,
    CapsLock,
    ScrollLock,
    NumLock,
    PrintScreen,
    Pause,
    Menu,
    KeypadBegin,
    Media(u8),
    Modifier(u8),
}

/// No modifier held.
pub const NONE: u8 = 0;
/// The shift flag.
pub const SHIFT: u8 = 1;
/// The control flag.
pub const CONTROL: u8 = 2;
/// The alt flag.
pub const ALT: u8 = 4;

/// One past the largest character code.
pub const CHAR_LIMIT: u64 = 0x110000;

/// A number for each key, different for different keys: characters by their code, the other
/// keys above all character codes.
pub open spec fn key_number(k: KeyCode) -> u64 {
    match k {
        KeyCode::Char(c) => c as u64,
        KeyCode::F(n) => (CHAR_LIMIT + n) as u64,
        KeyCode::Media(n) => (CHAR_LIMIT + 0x100 + n) as u64,
        KeyCode::Modifier(n) => (CHAR_LIMIT + 0x200 + n) as u64,
        KeyCode::Backspace => (CHAR_LIMIT + 0x300) as u64,
        KeyCode::Enter => (CHAR_LIMIT + 0x301) as u64,
        KeyCode::Left => (CHAR_LIMIT + 0x302) as u64,
        KeyCode::Right => (CHAR_LIMIT + 0x303) as u64,
        KeyCode::Up => (CHAR_LIMIT + 0x304) as u64,
        KeyCode::Down => (CHAR_LIMIT + 0x305) as u64,
        KeyCode::Home => (CHAR_LIMIT + 0x306) as u64,
        KeyCode::End => (CHAR_LIMIT + 0x307) as u64,
        KeyCode::PageUp => (CHAR_LIMIT + 0x308) as u64,
        KeyCode::PageDown => (CHAR_LIMIT + 0x309) as u64,
        KeyCode::Tab => (CHAR_LIMIT + 0x30a) as u64,
        KeyCode::BackTab => (CHAR_LIMIT + 0x30b) as u64,
        KeyCode::Delete => (CHAR_LIMIT + 0x30c) as u64,
        KeyCode::Insert => (CHAR_LIMIT + 0x30d) as u64,
        KeyCode::Null => (CHAR_LIMIT + 0x30e) as u64,
        KeyCode::Esc => (CHAR_LIMIT + 0x30f) as u64,
        KeyCode::CapsLock => (CHAR_LIMIT + 0x310) as u64,
        KeyCode::ScrollLock => (CHAR_LIMIT + 0x311) as u64,
        KeyCode::NumLock => (CHAR_LIMIT + 0x312) as u64,
        KeyCode::PrintScreen => (CHAR_LIMIT + 0x313) as u64,
        KeyCode::Pause => (CHAR_LIMIT + 0x314) as u64,
        KeyCode::Menu => (CHAR_LIMIT + 0x315) as u64,
        KeyCode::KeypadBegin => (CHAR_LIMIT + 0x316) as u64,
    }
}

/// Where a key held with some modifiers is kept in the key map.
pub open spec fn binding_index(k: KeyCode, modifiers: u8) -> u64 {
    (key_number(k) * 256 + modifiers) as u64
}

/// Different keys have different numbers, and all of them are below `CHAR_LIMIT + 0x400`.
pub proof fn lemma_key_number_injective(a: KeyCode, b: KeyCode)
    ensures
        key_number(a) < CHAR_LIMIT + 0x400,
        key_number(a) == key_number(b) ==> a == b,
{
    match a {
        KeyCode::Char(c) => {
            assert(c as u64 == c as int);
        },
        _ => {},
    }
    match b {
        KeyCode::Char(d) => {
            assert(d as u64 == d as int);
        },
        _ => {},
    }
    if key_number(a) == key_number(b) {
        match (a, b) {
            (KeyCode::Char(c), KeyCode::Char(d)) => {
                assert(c as int == d as int);
            },
            _ => {},
        }
    }
}

proof fn lemma_index_parts(x: int, m: int, y: int, n: int)
    by (nonlinear_arith)
    requires
        0 <= m < 256,
        0 <= n < 256,
        x * 256 + m == y * 256 + n,
    ensures
        x == y,
        m == n,
{
}

/// A key held with some modifiers is kept apart from every other such pair.
pub proof fn lemma_binding_index_injective(a: KeyCode, m: u8, b: KeyCode, n: u8)
    ensures
        binding_index(a, m) == binding_index(b, n) ==> a == b && m == n,
{
    lemma_key_number_injective(a, b);
    lemma_key_number_injective(b, a);
    assert(key_number(a) * 256 + m < 0x1_0000_0000_0000) by (nonlinear_arith)
        requires key_number(a) < CHAR_LIMIT + 0x400, m < 256;
    assert(key_number(b) * 256 + n < 0x1_0000_0000_0000) by (nonlinear_arith)
        requires key_number(b) < CHAR_LIMIT + 0x400, n < 256;
    if binding_index(a, m) == binding_index(b, n) {
        lemma_index_parts(key_number(a) as int, m as int, key_number(b) as int, n as int);
    }
}

/// The key number of a key (see [`key_number`]).
pub fn key_number_of(k: KeyCode) -> (r: u64)
    ensures
        r == key_number(k),
{
    match k {
        KeyCode::Char(c) => c as u64,
        KeyCode::F(n) => CHAR_LIMIT + n as u64,
        KeyCode::Media(n) => CHAR_LIMIT + 0x100 + n as u64,
        KeyCode::Modifier(n) => CHAR_LIMIT + 0x200 + n as u64,
        KeyCode::Backspace => CHAR_LIMIT + 0x300,
        KeyCode::Enter => CHAR_LIMIT + 0x301,
        KeyCode::Left => CHAR_LIMIT + 0x302,
        KeyCode::Right => CHAR_LIMIT + 0x303,
        KeyCode::Up => CHAR_LIMIT + 0x304,
        KeyCode::Down => CHAR_LIMIT + 0x305,
        KeyCode::Home => CHAR_LIMIT + 0x306,
        KeyCode::End => CHAR_LIMIT + 0x307,
        KeyCode::PageUp => CHAR_LIMIT + 0x308,
        KeyCode::PageDown => CHAR_LIMIT + 0x309,
        KeyCode::Tab => CHAR_LIMIT + 0x30a,
        KeyCode::BackTab => CHAR_LIMIT + 0x30b,
        KeyCode::Delete => CHAR_LIMIT + 0x30c,
        KeyCode::Insert => CHAR_LIMIT + 0x30d,
        KeyCode::Null => CHAR_LIMIT + 0x30e,
        KeyCode::Esc => CHAR_LIMIT + 0x30f,
        KeyCode::CapsLock => CHAR_LIMIT + 0x310,
        KeyCode::ScrollLock => CHAR_LIMIT + 0x311,
        KeyCode::NumLock => CHAR_LIMIT + 0x312,
        KeyCode::PrintScreen => CHAR_LIMIT + 0x313,
        KeyCode::Pause => CHAR_LIMIT + 0x314,
        KeyCode::Menu => CHAR_LIMIT + 0x315,
        KeyCode::KeypadBegin => CHAR_LIMIT + 0x316,
    }
}

/// Where a key held with some modifiers is kept (see [`binding_index`]).
fn binding_index_of(k: KeyCode, modifiers: u8) -> (r: u64)
    ensures
        r == binding_index(k, modifiers),
{
    let n = key_number_of(k);
    proof {
        lemma_key_number_injective(k, k);
        assert(n * 256 + modifiers < 0x1_0000_0000_0000) by (nonlinear_arith)
            requires n < CHAR_LIMIT + 0x400, modifiers < 256;
    }
    n * 256 + modifiers as u64
}

/// Whether a modifier flag is in a list of flags.
pub open spec fn holds_flag(list: Seq<u8>, flag: u8) -> bool {
    list.contains(flag)
}

/// A list of modifiers as flags.
pub open spec fn flags_of(modifiers: Option<Vec<u8>>) -> Option<Seq<u8>> {
    match modifiers {
        Some(v) => Some(v@),
        None => None,
    }
}

/// The modifier flags that a list of modifiers makes: control, alt and shift where the list
/// holds them; none without a list.
pub open spec fn modifier_bits(modifiers: Option<Seq<u8>>) -> u8 {
    match modifiers {
        None => NONE,
        Some(list) => ((if holds_flag(list, CONTROL) { CONTROL } else { NONE })
            + (if holds_flag(list, ALT) { ALT } else { NONE })
            + (if holds_flag(list, SHIFT) { SHIFT } else { NONE })) as u8,
    }
}

fn holds(list: &Vec<u8>, flag: u8) -> (r: bool)
    ensures
        r == holds_flag(list@, flag),
{
    let mut i: usize = 0;
    while i < list.len()
        invariant
            i <= list@.len(),
            forall|k: int| 0 <= k < i ==> list@[k] != flag,
        decreases list@.len() - i,
    {
        if list[i] == flag {
            assert(list@[i as int] == flag);
            return true;
        }
        i = i + 1;
    }
    proof {
        if list@.contains(flag) {
            let k = choose|k: int| 0 <= k < list@.len() && list@[k] == flag;
            assert(list@[k] != flag);
        }
    }
    false
}

/// The modifier flags that a list of modifiers makes (see [`modifier_bits`]).
pub fn create_keymap_modifiers(modifiers: Option<Vec<u8>>) -> (r: u8)
    ensures
        r == modifier_bits(flags_of(modifiers)),
{
    match modifiers {
        None => NONE,
        Some(list) => {
            let control = if holds(&list, CONTROL) { CONTROL } else { NONE };
            let alt = if holds(&list, ALT) { ALT } else { NONE };
            let shift = if holds(&list, SHIFT) { SHIFT } else { NONE };
            control + alt + shift
        },
    }
}

/// Whether a character is alphabetic, as `char::is_alphabetic` of std decides.
pub uninterp spec fn alphabetic(c: char) -> bool;

/// Whether a character is uppercase, as `char::is_uppercase` of std decides.
pub uninterp spec fn uppercase(c: char) -> bool;

/// The first character of a character's lowercase mapping, `char::to_lowercase` of std.
pub uninterp spec fn lowercase_first(c: char) -> char;

/// The first character of a character's uppercase mapping, `char::to_uppercase` of std.
pub uninterp spec fn uppercase_first(c: char) -> char;

/// Calls `char::is_alphabetic` of std; claims only that the answer is the one named
/// [`alphabetic`].
#[verifier::external_body]
fn is_alphabetic(c: char) -> (r: bool)
    ensures
        r == alphabetic(c),
{
    c.is_alphabetic()
}

/// Calls `char::is_uppercase` of std; claims only that the answer is the one named
/// [`uppercase`].
#[verifier::external_body]
fn is_uppercase(c: char) -> (r: bool)
    ensures
        r == uppercase(c),
{
    c.is_uppercase()
}

/// Calls `char::to_lowercase` of std and takes the first character of the mapping, which std
/// documents to hold one or more characters; claims only that it is the one named
/// [`lowercase_first`].
#[verifier::external_body]
fn to_lowercase_first(c: char) -> (r: char)
    ensures
        r == lowercase_first(c),
{
    c.to_lowercase().next().unwrap()
}

/// Calls `char::to_uppercase` of std and takes the first character of the mapping, which std
/// documents to hold one or more characters; claims only that it is the one named
/// [`uppercase_first`].
#[verifier::external_body]
fn to_uppercase_first(c: char) -> (r: char)
    ensures
        r == uppercase_first(c),
{
    c.to_uppercase().next().unwrap()
}

/// The same letter in the other case: the lowercase of an uppercase letter, else the
/// uppercase.
pub open spec fn other_case(c: char) -> char {
    if uppercase(c) { lowercase_first(c) } else { uppercase_first(c) }
}

/// The key looked up besides the given one: the same letter in the other case, for an
/// alphabetic character.
pub open spec fn alternative_key(k: KeyCode) -> Option<KeyCode> {
    match k {
        KeyCode::Char(c) => if alphabetic(c) { Some(KeyCode::Char(other_case(c))) } else { None },
        _ => None,
    }
}

/// The alternative key to look up (see [`alternative_key`]).
pub fn get_alternative_key(k: KeyCode) -> (r: Option<KeyCode>)
    ensures
        r == alternative_key(k),
{
    match k {
        KeyCode::Char(c) => if is_alphabetic(c) {
            let other = if is_uppercase(c) { to_lowercase_first(c) } else { to_uppercase_first(c) };
            Some(KeyCode::Char(other))
        } else {
            None
        },
        _ => None,
    }
}

/// Binds keys held with modifier flags to callbacks.
pub struct KeyMap<F> {
    pub keymap: HashMap<u64, F>,
}

impl<F> KeyMap<F> {
    /// The callback bound to a key held with some modifiers, exactly.
    pub open spec fn binding(&self, key: KeyCode, modifiers: u8) -> Option<F> {
        self.keymap@.get(binding_index(key, modifiers))
    }

    /// What a lookup of a key finds: its own binding, else the binding of the same letter in
    /// the other case.
    pub open spec fn lookup(&self, key: KeyCode, modifiers: u8) -> Option<F> {
        match self.binding(key, modifiers) {
            Some(f) => Some(f),
            None => match alternative_key(key) {
                Some(other) => self.binding(other, modifiers),
                None => None,
            },
        }
    }

    /// A key map with no binding.
    pub fn new() -> (r: KeyMap<F>)
        ensures
            r.keymap@ == Map::<u64, F>::empty(),
            forall|k: KeyCode, m: u8| #[trigger] r.binding(k, m) is None,
    {
        KeyMap { keymap: HashMap::new() }
    }

    /// Bind a key held with the given modifiers (see [`create_keymap_modifiers`]) to a
    /// callback, in place of any callback bound to it before. Every other binding stays.
    pub fn bind_key(&mut self, key: KeyCode, modifiers: Option<Vec<u8>>, func: F)
        ensures
            forall|k: KeyCode, m: u8| #[trigger] final(self).binding(k, m) == (if k == key
                && m == modifier_bits(flags_of(modifiers)) { Some(func) } else { old(self).binding(k, m) }),
    {
        let ghost mods = modifier_bits(flags_of(modifiers));
        let bits = create_keymap_modifiers(modifiers);
        let index = binding_index_of(key, bits);
        self.keymap.insert(index, func);
        assert forall|k: KeyCode, m: u8| #[trigger] self.binding(k, m) == (if k == key && m == mods { Some(func) }
            else { old(self).binding(k, m) }) by {
            lemma_binding_index_injective(k, m, key, mods);
        }
    }

    /// Take over every binding of `other`, in place of a binding of the same key and
    /// modifiers here; bindings that `other` lacks stay.
    pub fn extend(&mut self, other: KeyMap<F>)
        ensures
            final(self).keymap@ == old(self).keymap@.union_prefer_right(other.keymap@),
            forall|k: KeyCode, m: u8| #[trigger] final(self).binding(k, m) == (match other.binding(k, m) {
                Some(f) => Some(f),
                None => old(self).binding(k, m),
            }),
    {
        let ghost orig = other.keymap@;
        let ghost ks = vstd::std_specs::iter::IteratorSpec::remaining(&vstd::std_specs::hash::spec_keys_iter(&other.keymap)).unref();
        let mut keys: Vec<u64> = Vec::new();
        for k in it: other.keymap.keys()
            invariant
                it.seq().unref() == ks,
                keys@ == ks.take(it.index()),
        {
            assert(ks[it.index()] == *k);
            keys.push(*k);
            assert(keys@ =~= ks.take(it.index() + 1));
        }
        assert(keys@ =~= ks);
        let mut rest = other;
        let mut j: usize = 0;
        let ghost start = self.keymap@;
        while j < keys.len()
            invariant
                j <= keys@.len(),
                keys@.to_set() == orig.dom(),
                keys@.no_duplicates(),
                self.keymap@ == start.union_prefer_right(orig.restrict(keys@.take(j as int).to_set())),
                rest.keymap@ == orig.remove_keys(keys@.take(j as int).to_set()),
            decreases keys@.len() - j,
        {
            let key = keys[j];
            proof {
                assert(orig.dom().contains(key)) by { assert(keys@.to_set().contains(key)); }
                assert(!keys@.take(j as int).to_set().contains(key)) by {
                    if keys@.take(j as int).contains(key) {
                        let i = choose|i: int| 0 <= i < j && keys@.take(j as int)[i] == key;
                        assert(keys@[i] == keys@[j as int]);
                    }
                }
                assert(keys@.take(j + 1) =~= keys@.take(j as int).push(key));
                keys@.take(j as int).lemma_push_to_set_commute(key);
            }
            let ghost done = keys@.take(j as int).to_set();
            let ghost before = rest.keymap@;
            let ghost mine = self.keymap@;
            assert(before.dom().contains(key));
            match rest.keymap.remove(&key) {
                Some(v) => {
                    assert(v == orig[key]);
                    self.keymap.insert(key, v);
                },
                None => {
                    assert(false);
                },
            }
            assert(rest.keymap@ == before.remove(key));
            j = j + 1;
            assert(keys@.take(j as int).to_set() == done.insert(key));
            assert(self.keymap@ =~= start.union_prefer_right(orig.restrict(done.insert(key))));
            assert(rest.keymap@ =~= orig.remove_keys(done.insert(key)));
        }
        assert(keys@.take(keys@.len() as int) =~= keys@);
        assert(orig.restrict(keys@.to_set()) =~= orig);
    }

    /// Whether a key held with the given modifier flags has a binding; for a letter, a
    /// binding of the same letter in the other case counts too.
    pub fn contains(&self, key: KeyCode, modifiers: u8) -> (r: bool)
        ensures
            r == self.lookup(key, modifiers) is Some,
    {
        let index = binding_index_of(key, modifiers);
        if self.keymap.contains_key(&index) {
            return true;
        }
        match get_alternative_key(key) {
            Some(other) => {
                let other_index = binding_index_of(other, modifiers);
                self.keymap.contains_key(&other_index)
            },
            None => false,
        }
    }

    /// The callback bound to a key held with the given modifier flags; for a letter without a
    /// binding of its own, that of the same letter in the other case.
    pub fn get(&self, key: KeyCode, modifiers: u8) -> (r: Option<&F>)
        ensures
            match r {
                Some(f) => self.lookup(key, modifiers) == Some(*f),
                None => self.lookup(key, modifiers) is None,
            },
    {
        let index = binding_index_of(key, modifiers);
        match self.keymap.get(&index) {
            Some(f) => Some(f),
            None => match get_alternative_key(key) {
                Some(other) => {
                    let other_index = binding_index_of(other, modifiers);
                    self.keymap.get(&other_index)
                },
                None => None,
            },
        }
    }
}

/// A key bound to a callback is found by the key it was bound to, held with the same
/// modifiers, and no other binding changes.
pub proof fn lemma_bound_key_is_found<F>(before: KeyMap<F>, after: KeyMap<F>, key: KeyCode, modifiers: u8, func: F)
    requires
        forall|k: KeyCode, m: u8| #[trigger] after.binding(k, m) == (if k == key && m == modifiers { Some(func) }
            else { before.binding(k, m) }),
    ensures
        after.lookup(key, modifiers) == Some(func),
        forall|k: KeyCode, m: u8| (k != key || m != modifiers) ==> #[trigger] after.binding(k, m) == before.binding(k, m),
{
    assert(after.binding(key, modifiers) == Some(func));
}

/// A letter bound in one case is found by the same letter in the other case, where it has no
/// binding of its own.
pub proof fn lemma_other_case_is_found<F>(map: KeyMap<F>, c: char, modifiers: u8, func: F)
    requires
        alphabetic(c),
        map.binding(KeyCode::Char(c), modifiers) is None,
        map.binding(KeyCode::Char(other_case(c)), modifiers) == Some(func),
    ensures
        map.lookup(KeyCode::Char(c), modifiers) == Some(func),
{
}

} // verus!
