//! The children of a layout, each under an id that no other child of the layout has, and the
//! names along a widget path.
use vstd::prelude::*;
use crate::scheduler::names;
use crate::strings::{char_len, substring, concat2, concat3};
use crate::scheduler::{EzProperty, SchedulerFrontend};
use crate::definitions::{ColorConfig, registered_names};
use crate::button::{Button, ButtonState};

verus! {

/// The children of a layout in order, each with its id.
pub struct Children<T> {
    pub ids: Vec<String>,
    pub children: Vec<T>,
}

impl<T> Children<T> {
    /// One id for each child, and no id twice.
    pub open spec fn wf(&self) -> bool {
        &&& self.ids@.len() == self.children@.len()
        &&& forall|i: int, j: int| 0 <= i < j < self.ids@.len() ==> self.ids@[i]@ != self.ids@[j]@
    }

    /// Whether a child has the given id.
    pub open spec fn has(&self, id: Seq<char>) -> bool {
        exists|k: int| 0 <= k < self.ids@.len() && self.ids@[k]@ == id
    }

    /// The child under an id is the `k`-th.
    pub open spec fn at(&self, id: Seq<char>, k: int) -> bool {
        0 <= k < self.ids@.len() && self.ids@[k]@ == id
    }

    /// A layout without children.
    pub fn new() -> (r: Children<T>)
        ensures
            r.wf(),
            r.ids@.len() == 0,
    {
        Children { ids: Vec::new(), children: Vec::new() }
    }

    /// The place of the child with the given id, if there is one.
    fn find(&self, id: &String) -> (r: Option<usize>)
        ensures
            match r {
                Some(k) => self.at(id@, k as int),
                None => !self.has(id@),
            },
    {
        let mut i: usize = 0;
        while i < self.ids.len()
            invariant
                i <= self.ids@.len(),
                forall|k: int| 0 <= k < i ==> self.ids@[k]@ != id@,
            decreases self.ids@.len() - i,
        {
            if self.ids[i] == *id {
                return Some(i);
            }
            i = i + 1;
        }
        None
    }

    /// Whether a child has the given id.
    pub fn has_child(&self, id: &String) -> (r: bool)
        ensures
            r == self.has(id@),
    {
        self.find(id).is_some()
    }

    /// Add a child under an id that no child has yet, after the others.
    pub fn add_child(&mut self, id: String, child: T)
        requires
            old(self).wf(),
            !old(self).has(id@),
        ensures
            final(self).wf(),
            final(self).ids@ == old(self).ids@.push(id),
            final(self).children@ == old(self).children@.push(child),
    {
        self.ids.push(id);
        self.children.push(child);
        assert forall|i: int, j: int| 0 <= i < j < self.ids@.len() implies self.ids@[i]@ != self.ids@[j]@ by {
            if j == self.ids@.len() - 1 {
                assert(old(self).ids@[i]@ != id@);
            } else {
                assert(self.ids@[i] == old(self).ids@[i]);
                assert(self.ids@[j] == old(self).ids@[j]);
            }
        }
    }

    /// Remove the child with the given id; the others keep their order.
    pub fn remove_child(&mut self, id: &String) -> (removed: T)
        requires
            old(self).wf(),
            old(self).has(id@),
        ensures
            final(self).wf(),
            exists|k: int| #![trigger old(self).ids@[k]] old(self).at(id@, k)
                && final(self).ids@ == old(self).ids@.remove(k)
                && final(self).children@ == old(self).children@.remove(k)
                && removed == old(self).children@[k],
            !final(self).has(id@),
    {
        let k = self.find(id).unwrap();
        self.ids.remove(k);
        let removed = self.children.remove(k);
        assert(old(self).ids@[k as int] == old(self).ids@[k as int]);
        assert forall|i: int, j: int| 0 <= i < j < self.ids@.len() implies self.ids@[i]@ != self.ids@[j]@ by {
            let oi = if i < k { i } else { i + 1 };
            let oj = if j < k { j } else { j + 1 };
            assert(self.ids@[i] == old(self).ids@[oi]);
            assert(self.ids@[j] == old(self).ids@[oj]);
        }
        assert forall|m: int| 0 <= m < self.ids@.len() implies self.ids@[m]@ != id@ by {
            let om = if m < k { m } else { m + 1 };
            assert(self.ids@[m] == old(self).ids@[om]);
        }
        removed
    }

    /// The child with the given id, if there is one.
    pub fn get_child(&self, id: &String) -> (r: Option<&T>)
        requires
            self.wf(),
        ensures
            match r {
                Some(c) => exists|k: int| #![trigger self.ids@[k]] self.at(id@, k) && *c == self.children@[k],
                None => !self.has(id@),
            },
    {
        match self.find(id) {
            Some(k) => {
                assert(self.ids@[k as int] == self.ids@[k as int]);
                Some(&self.children[k])
            },
            None => None,
        }
    }
}

/// A child added under an id is the one found under that id, and the ids stay distinct.
pub proof fn lemma_added_child_is_found<T>(before: Children<T>, after: Children<T>, id: String, child: T, k: int)
    requires
        before.wf(),
        !before.has(id@),
        after.ids@ == before.ids@.push(id),
        after.children@ == before.children@.push(child),
        after.at(id@, k),
    ensures
        after.children@[k] == child,
{
    if k < before.ids@.len() {
        assert(after.ids@[k] == before.ids@[k]);
    }
}

/// The pieces of a path between its slashes, empty pieces included.
pub open spec fn path_pieces(s: Seq<char>) -> Seq<Seq<char>>
    decreases s.len(),
{
    if s.len() == 0 {
        seq![Seq::empty()]
    } else {
        let rest = path_pieces(s.drop_last());
        if s.last() == '/' {
            rest.push(Seq::empty())
        } else {
            rest.update(rest.len() - 1, rest.last().push(s.last()))
        }
    }
}

/// The pieces that are not empty, in order.
pub open spec fn nonempty_pieces(pieces: Seq<Seq<char>>) -> Seq<Seq<char>>
    decreases pieces.len(),
{
    if pieces.len() == 0 {
        pieces
    } else {
        let rest = nonempty_pieces(pieces.drop_last());
        if pieces.last().len() > 0 { rest.push(pieces.last()) } else { rest }
    }
}

/// The names along a path from a layout: the non-empty pieces between the slashes, without a
/// first piece that is the layout's own id.
pub open spec fn path_names(path: Seq<char>, own_id: Seq<char>) -> Seq<Seq<char>> {
    let all = nonempty_pieces(path_pieces(path));
    if all.len() > 0 && all[0] == own_id { all.drop_first() } else { all }
}

proof fn lemma_pieces_not_empty(s: Seq<char>)
    ensures
        path_pieces(s).len() >= 1,
    decreases s.len(),
{
    if s.len() > 0 {
        lemma_pieces_not_empty(s.drop_last());
    }
}

/// The names along a path from the layout with id `own_id` (see [`path_names`]).
pub fn split_path(path: &String, own_id: &String) -> (r: Vec<String>)
    ensures
        names(r@) == path_names(path@, own_id@),
{
    let len = char_len(path);
    let mut found: Vec<String> = Vec::new();
    let mut start: usize = 0;
    let mut i: usize = 0;
    proof {
        assert(path@.take(0) =~= Seq::<char>::empty());
    }
    while i < len
        invariant
            i <= len,
            len == path@.len(),
            start <= i,
            path_pieces(path@.take(i as int)).len() >= 1,
            path_pieces(path@.take(i as int)).last() == path@.subrange(start as int, i as int),
            names(found@) == nonempty_pieces(path_pieces(path@.take(i as int)).drop_last()),
        decreases len - i,
    {
        let ghost before = path_pieces(path@.take(i as int));
        let c = path.as_str().get_char(i);
        proof {
            assert(path@.take(i + 1).drop_last() =~= path@.take(i as int));
            assert(path@.take(i + 1).last() == c);
        }
        if c == '/' {
            if start < i {
                let piece = substring(path, start, i);
                found.push(piece);
            }
            proof {
                let after = path_pieces(path@.take(i + 1));
                assert(after == before.push(Seq::empty()));
                assert(after.drop_last() =~= before);
                assert(before =~= before.drop_last().push(before.last()));
                assert(names(found@) =~= nonempty_pieces(before));
                assert(after.last() =~= path@.subrange((i + 1) as int, (i + 1) as int));
            }
            start = i + 1;
        } else {
            proof {
                let after = path_pieces(path@.take(i + 1));
                assert(after.drop_last() =~= before.drop_last());
                assert(after.last() =~= path@.subrange(start as int, (i + 1) as int));
            }
        }
        i = i + 1;
    }
    proof {
        let all = path_pieces(path@.take(len as int));
        assert(path@.take(len as int) =~= path@);
        assert(all =~= all.drop_last().push(all.last()));
    }
    if start < len {
        let piece = substring(path, start, len);
        found.push(piece);
    }
    proof {
        let all = path_pieces(path@);
        assert(names(found@) =~= nonempty_pieces(all));
    }
    if found.len() > 0 && found[0] == *own_id {
        let ghost whole = found@;
        found.remove(0);
        assert(names(found@) =~= names(whole).drop_first());
    }
    found
}

/// A path made of names, each after a slash.
pub open spec fn joined_path(names: Seq<Seq<char>>) -> Seq<char>
    decreases names.len(),
{
    if names.len() == 0 {
        Seq::empty()
    } else {
        joined_path(names.drop_last()) + "/"@ + names.last()
    }
}

/// Names that can stand in a path: not empty, and without a slash.
pub open spec fn path_safe(names: Seq<Seq<char>>) -> bool {
    forall|i: int| 0 <= i < names.len() ==> (#[trigger] names[i]).len() > 0 && !names[i].contains('/')
}

proof fn lemma_pieces_extend(s: Seq<char>, t: Seq<char>)
    requires
        !t.contains('/'),
    ensures
        path_pieces(s + t) == path_pieces(s).update(path_pieces(s).len() - 1, path_pieces(s).last() + t),
    decreases t.len(),
{
    lemma_pieces_not_empty(s);
    if t.len() == 0 {
        assert(s + t =~= s);
        assert(path_pieces(s).last() + t =~= path_pieces(s).last());
        assert(path_pieces(s).update(path_pieces(s).len() - 1, path_pieces(s).last()) =~= path_pieces(s));
    } else {
        let t0 = t.drop_last();
        assert(!t0.contains('/')) by {
            if t0.contains('/') {
                let k = choose|k: int| 0 <= k < t0.len() && t0[k] == '/';
                assert(t[k] == '/');
            }
        }
        assert(t.last() != '/') by {
            assert(t[t.len() - 1] == t.last());
        }
        lemma_pieces_extend(s, t0);
        assert((s + t).drop_last() =~= s + t0);
        assert((s + t).last() == t.last());
        lemma_pieces_not_empty(s + t0);
        let p = path_pieces(s);
        assert(p.last() + t =~= (p.last() + t0).push(t.last()));
    }
}

proof fn lemma_joined_pieces(names: Seq<Seq<char>>)
    requires
        path_safe(names),
    ensures
        path_pieces(joined_path(names)) == seq![Seq::<char>::empty()] + names,
    decreases names.len(),
{
    if names.len() == 0 {
        assert(path_pieces(Seq::<char>::empty()) =~= seq![Seq::<char>::empty()]);
        assert(seq![Seq::<char>::empty()] + names =~= seq![Seq::<char>::empty()]);
    } else {
        let front = names.drop_last();
        assert(path_safe(front)) by {
            assert forall|i: int| 0 <= i < front.len() implies (#[trigger] front[i]).len() > 0
                && !front[i].contains('/') by {
                assert(front[i] == names[i]);
            }
        }
        lemma_joined_pieces(front);
        let j = joined_path(front);
        let with_slash = j + "/"@;
        reveal_strlit("/");
        assert(with_slash.drop_last() =~= j);
        assert(with_slash.last() == '/');
        let n = names.last();
        assert(n.len() > 0 && !n.contains('/')) by {
            assert(names[names.len() - 1] == n);
        }
        lemma_pieces_extend(with_slash, n);
        let p = path_pieces(with_slash);
        assert(p == path_pieces(j).push(Seq::empty()));
        assert(p.last() + n =~= n);
        assert(joined_path(names) == with_slash + n);
        assert(path_pieces(joined_path(names)) =~= seq![Seq::<char>::empty()] + names);
    }
}

proof fn lemma_nonempty_of_safe(names: Seq<Seq<char>>)
    requires
        path_safe(names),
    ensures
        nonempty_pieces(seq![Seq::<char>::empty()] + names) == names,
    decreases names.len(),
{
    if names.len() == 0 {
        let one = seq![Seq::<char>::empty()] + names;
        assert(one.drop_last() =~= Seq::<Seq<char>>::empty());
        assert(nonempty_pieces(one.drop_last()) =~= Seq::<Seq<char>>::empty());
        assert(one.last().len() == 0);
        assert(nonempty_pieces(one) =~= names);
    } else {
        let front = names.drop_last();
        assert(path_safe(front)) by {
            assert forall|i: int| 0 <= i < front.len() implies (#[trigger] front[i]).len() > 0
                && !front[i].contains('/') by {
                assert(front[i] == names[i]);
            }
        }
        lemma_nonempty_of_safe(front);
        let all = seq![Seq::<char>::empty()] + names;
        assert(all.drop_last() =~= seq![Seq::<char>::empty()] + front);
        assert(all.last() == names.last());
        assert(names[names.len() - 1].len() > 0);
        assert(nonempty_pieces(all) == nonempty_pieces(all.drop_last()).push(all.last()));
        assert(names =~= front.push(names.last()));
    }
}

/// A path built by joining names with slashes splits back into those names; a path that
/// starts with the layout's own id splits into the names after it.
pub proof fn lemma_joined_path_splits_back(names: Seq<Seq<char>>, own_id: Seq<char>)
    requires
        path_safe(names),
    ensures
        names.len() == 0 || names[0] != own_id ==> path_names(joined_path(names), own_id) == names,
        own_id.len() > 0 && !own_id.contains('/') ==>
            path_names(joined_path(seq![own_id] + names), own_id) == names,
{
    lemma_joined_pieces(names);
    lemma_nonempty_of_safe(names);
    if own_id.len() > 0 && !own_id.contains('/') {
        let with_own = seq![own_id] + names;
        assert(path_safe(with_own)) by {
            assert forall|i: int| 0 <= i < with_own.len() implies (#[trigger] with_own[i]).len() > 0
                && !with_own[i].contains('/') by {
                if i > 0 {
                    assert(with_own[i] == names[i - 1]);
                }
            }
        }
        lemma_joined_pieces(with_own);
        lemma_nonempty_of_safe(with_own);
        assert(with_own.drop_first() =~= names);
    }
}

/// The colors of a tab header: the layout's tab colors, its active colors where the header is
/// disabled (the tab shown), its tab border colors and its selection colors, under the names
/// of the header's own color properties.
pub open spec fn tab_header_colors(own: ColorConfig, layout: ColorConfig) -> ColorConfig {
    ColorConfig {
        fg_color: EzProperty { name: own.fg_color.name, value: layout.tab_fg_color.value },
        bg_color: EzProperty { name: own.bg_color.name, value: layout.tab_bg_color.value },
        disabled_fg_color: EzProperty { name: own.disabled_fg_color.name, value: layout.active_fg_color.value },
        disabled_bg_color: EzProperty { name: own.disabled_bg_color.name, value: layout.active_bg_color.value },
        border_fg_color: EzProperty { name: own.border_fg_color.name, value: layout.tab_border_fg_color.value },
        border_bg_color: EzProperty { name: own.border_bg_color.name, value: layout.tab_border_bg_color.value },
        selection_fg_color: EzProperty { name: own.selection_fg_color.name, value: layout.selection_fg_color.value },
        selection_bg_color: EzProperty { name: own.selection_bg_color.name, value: layout.selection_bg_color.value },
        ..own
    }
}

/// The header button a tab layout adds for a tab it gets as a child: its id is the tab's
/// name followed by `_tab_header`, it lies under the layout's path, shows the tab's name and
/// takes its colors from the layout (see [`tab_header_colors`]); otherwise its state is the
/// fresh state of a button. Pressing it shows the tab, which is the caller's callback.
pub fn new_tab_header(tab_name: &String, parent_path: &String, layout_colors: &ColorConfig,
    scheduler: &mut SchedulerFrontend) -> (r: Button)
    ensures
        r.id@ == tab_name@ + "_tab_header"@,
        r.path@ == parent_path@ + "/"@ + r.id@,
        exists|fresh: ButtonState| #[trigger] fresh.is_fresh(r.path) && r.state == (ButtonState { text: *tab_name,
            colors: tab_header_colors(fresh.colors, *layout_colors), changed: true, ..fresh }),
        registered_names(*old(scheduler), *final(scheduler), r.state.property_names()),
{
    let suffix = String::from_str("_tab_header");
    let slash = String::from_str("/");
    proof {
        reveal_strlit("_tab_header");
        reveal_strlit("/");
    }
    let id = concat2(tab_name, &suffix);
    let path = concat3(parent_path, &slash, &id);
    let mut header = Button::new(id, path, scheduler);
    let ghost fresh = header.state;
    header.state.set_text(tab_name.clone());
    header.state.colors.set_fg_color(layout_colors.tab_fg_color.value);
    header.state.colors.set_bg_color(layout_colors.tab_bg_color.value);
    header.state.colors.set_disabled_fg_color(layout_colors.active_fg_color.value);
    header.state.colors.set_disabled_bg_color(layout_colors.active_bg_color.value);
    header.state.colors.set_border_fg_color(layout_colors.tab_border_fg_color.value);
    header.state.colors.set_border_bg_color(layout_colors.tab_border_bg_color.value);
    header.state.colors.set_selection_fg_color(layout_colors.selection_fg_color.value);
    header.state.colors.set_selection_bg_color(layout_colors.selection_bg_color.value);
    assert(header.state.colors == tab_header_colors(fresh.colors, *layout_colors));
    assert(fresh.is_fresh(header.path));
    assert(header.state.property_names() == fresh.property_names());
    header
}

} // verus!
