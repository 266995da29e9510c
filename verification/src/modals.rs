//! The modals open on the root layout: each has an id (by default the number of modals open
//! before it) and a path under "/modal"; the one shown is the first opened, and dismissing it
//! shows the next.
use vstd::prelude::*;
use crate::strings::{char_len, concat2, string_of_char};

verus! {

/// The character of a decimal digit.
pub open spec fn digit_char(d: nat) -> char {
    if d == 0 { '0' } else if d == 1 { '1' } else if d == 2 { '2' } else if d == 3 { '3' }
    else if d == 4 { '4' } else if d == 5 { '5' } else if d == 6 { '6' } else if d == 7 { '7' }
    else if d == 8 { '8' } else { '9' }
}

/// A number written in decimal, without leading zeros.
pub open spec fn decimal(n: nat) -> Seq<char>
    decreases n,
{
    if n < 10 {
        seq![digit_char(n)]
    } else {
        decimal(n / 10).push(digit_char(n % 10))
    }
}

fn digit(d: usize) -> (c: char)
    requires
        d < 10,
    ensures
        c == digit_char(d as nat),
{
    if d == 0 { '0' } else if d == 1 { '1' } else if d == 2 { '2' } else if d == 3 { '3' }
    else if d == 4 { '4' } else if d == 5 { '5' } else if d == 6 { '6' } else if d == 7 { '7' }
    else if d == 8 { '8' } else { '9' }
}

/// A number written in decimal (see [`decimal`]).
pub fn decimal_string(n: usize) -> (s: String)
    ensures
        s@ == decimal(n as nat),
    decreases n,
{
    if n < 10 {
        string_of_char(digit(n))
    } else {
        let front = decimal_string(n / 10);
        let r = concat2(&front, &string_of_char(digit(n % 10)));
        assert(r@ =~= decimal(n as nat));
        r
    }
}

/// The modals open on a layout, in the order they were opened, with the id and the full
/// path each was given.
pub struct Modals<T> {
    pub open_modals: Vec<T>,
    pub ids: Vec<String>,
    pub paths: Vec<String>,
}

/// The id a modal gets when it is opened: its own, or when it has none the number of modals
/// open before it.
pub open spec fn modal_id(id: Seq<char>, open: nat) -> Seq<char> {
    if id.len() == 0 { decimal(open) } else { id }
}

/// The path of a modal with the given id.
pub open spec fn modal_path(id: Seq<char>) -> Seq<char> {
    "/modal/"@ + id
}

impl<T> Modals<T> {
    /// One id and one path for each open modal, the path made of the id.
    pub open spec fn wf(&self) -> bool {
        &&& self.ids@.len() == self.open_modals@.len()
        &&& self.paths@.len() == self.open_modals@.len()
        &&& forall|k: int| 0 <= k < self.ids@.len() ==> (#[trigger] self.paths@[k])@ == modal_path(self.ids@[k]@)
    }

    /// No modal open.
    pub fn new() -> (r: Modals<T>)
        ensures
            r.wf(),
            r.open_modals@.len() == 0,
    {
        Modals { open_modals: Vec::new(), ids: Vec::new(), paths: Vec::new() }
    }

    /// Whether a modal is open.
    pub fn has_modal(&self) -> (r: bool)
        ensures
            r == (self.open_modals@.len() > 0),
    {
        self.open_modals.len() > 0
    }

    /// Open a modal after the ones open; it is given its id (see [`modal_id`]) and its full
    /// path (see [`modal_path`]). Returned are the path and the new states to add to the
    /// state tree: the modal's own state, keyed by its path.
    pub fn open_modal<S>(&mut self, id: String, modal: T, modal_state: S) -> (r: (String, Vec<(String, S)>))
        requires
            old(self).wf(),
        ensures
            final(self).wf(),
            final(self).open_modals@ == old(self).open_modals@.push(modal),
            final(self).ids@.len() == old(self).ids@.len() + 1,
            final(self).ids@.take(old(self).ids@.len() as int) == old(self).ids@,
            final(self).ids@.last()@ == modal_id(id@, old(self).open_modals@.len()),
            final(self).paths@ == old(self).paths@.push(r.0),
            r.0@ == modal_path(modal_id(id@, old(self).open_modals@.len())),
            r.1@.len() == 1,
            r.1@[0].0@ == r.0@,
            r.1@[0].1 == modal_state,
    {
        let own = if char_len(&id) == 0 { decimal_string(self.open_modals.len()) } else { id };
        let prefix = String::from_str("/modal/");
        let path = concat2(&prefix, &own);
        proof {
            reveal_strlit("/modal/");
        }
        self.open_modals.push(modal);
        self.ids.push(own);
        self.paths.push(path.clone());
        assert(self.ids@.take(old(self).ids@.len() as int) =~= old(self).ids@);
        assert forall|k: int| 0 <= k < self.ids@.len() implies (#[trigger] self.paths@[k])@
            == modal_path(self.ids@[k]@) by {
            if k < old(self).ids@.len() {
                assert(self.ids@[k] == old(self).ids@[k]);
                assert(self.paths@[k] == old(self).paths@[k]);
            }
        }
        let key = path.clone();
        let mut states: Vec<(String, S)> = Vec::new();
        states.push((key, modal_state));
        (path, states)
    }

    /// Dismiss the modal shown, the first one opened; the next one is shown.
    pub fn dismiss_modal(&mut self) -> (dismissed: T)
        requires
            old(self).wf(),
            old(self).open_modals@.len() > 0,
        ensures
            final(self).wf(),
            dismissed == old(self).open_modals@[0],
            final(self).open_modals@ == old(self).open_modals@.drop_first(),
            final(self).ids@ == old(self).ids@.drop_first(),
            final(self).paths@ == old(self).paths@.drop_first(),
    {
        self.ids.remove(0);
        self.paths.remove(0);
        let dismissed = self.open_modals.remove(0);
        assert(self.open_modals@ =~= old(self).open_modals@.drop_first());
        assert(self.ids@ =~= old(self).ids@.drop_first());
        assert(self.paths@ =~= old(self).paths@.drop_first());
        assert forall|k: int| 0 <= k < self.ids@.len() implies (#[trigger] self.paths@[k])@
            == modal_path(self.ids@[k]@) by {
            assert(self.ids@[k] == old(self).ids@[k + 1]);
            assert(self.paths@[k] == old(self).paths@[k + 1]);
        }
        dismissed
    }

    /// Dismiss all modals.
    pub fn dismiss_all_modals(&mut self)
        ensures
            final(self).wf(),
            final(self).open_modals@.len() == 0,
    {
        self.open_modals.clear();
        self.ids.clear();
        self.paths.clear();
    }

    /// The modal shown, the first one opened.
    pub fn get_modal(&self) -> (r: &T)
        requires
            self.open_modals@.len() > 0,
        ensures
            *r == self.open_modals@[0],
    {
        &self.open_modals[0]
    }
}

/// Modals are shown in the order they were opened: after opening one more modal and
/// dismissing the one shown, the modals open are those after the first, with the new one
/// last.
pub proof fn lemma_modals_first_in_first_out<T>(open: Seq<T>, modal: T)
    requires
        open.len() > 0,
    ensures
        open.push(modal).drop_first() == open.drop_first().push(modal),
        open.push(modal)[0] == open[0],
{
    assert(open.push(modal).drop_first() =~= open.drop_first().push(modal));
}

} // verus!
