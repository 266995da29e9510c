//! Properties and the requests a widget tree makes of the scheduler that runs it:
//! registered properties, widgets to redraw and tasks to run later.
use vstd::prelude::*;

verus! {

/// A named value. Properties are registered with the scheduler under their name so
/// that callbacks can be bound to them.
#[derive(Clone, Debug, PartialEq, Eq)]
pub struct EzProperty<T> {
    /// Name under which the property is registered, e.g. "/root/button/width".
    pub name: String,
    /// Current value.
    pub value: T,
}

impl<T> EzProperty<T> {
    /// A property with a name and an initial value.
    pub fn new(name: String, value: T) -> (p: EzProperty<T>)
        ensures
            p.name == name,
            p.value == value,
    {
        EzProperty { name, value }
    }

    /// Replace the value; the name stays.
    pub fn set(&mut self, value: T)
        ensures
            final(self).name == old(self).name,
            final(self).value == value,
    {
        self.value = value;
    }

    /// The current value.
    pub fn get(&self) -> (v: &T)
        ensures
            *v == self.value,
    {
        &self.value
    }
}

impl<T: Copy> EzProperty<T> {
    /// A copy of the property.
    pub fn duplicate(&self) -> (p: EzProperty<T>)
        ensures
            p == *self,
    {
        EzProperty { name: self.name.clone(), value: self.value }
    }
}

impl EzProperty<String> {
    /// A copy of the property.
    pub fn duplicate_text(&self) -> (p: EzProperty<String>)
        ensures
            p == *self,
    {
        EzProperty { name: self.name.clone(), value: self.value.clone() }
    }
}

/// What a scheduled task does when it runs.
#[derive(Clone, Debug, PartialEq, Eq)]
pub enum TaskAction {
    /// Stop the flash of the button at this path.
    EndFlash(String),
}

/// A task to run once after a delay.
#[derive(Clone, Debug, PartialEq, Eq)]
pub struct ScheduledTask {
    /// Name of the task (the path of the widget that asked for it).
    pub name: String,
    /// Delay before the task runs, in milliseconds.
    pub delay_ms: u64,
    /// What the task does.
    pub action: TaskAction,
}

/// The part of the scheduler that widgets talk to. It records the properties that
/// exist, the widgets that must be redrawn and the tasks that must run later; the
/// runtime that drives the interface carries these requests out.
#[derive(Clone, Debug)]
pub struct SchedulerFrontend {
    /// Names of the properties that are registered.
    pub properties: Vec<String>,
    /// Paths of the widgets that asked to be redrawn, oldest first.
    pub widgets_to_update: Vec<String>,
    /// Tasks to run later, oldest first.
    pub scheduled_tasks: Vec<ScheduledTask>,
    /// Whether the whole screen must be redrawn on the next frame.
    pub force_redraw: bool,
}

/// The names in a list of strings, as character sequences.
pub open spec fn names(v: Seq<String>) -> Seq<Seq<char>> {
    v.map_values(|s: String| s@)
}

/// A list of names without the entries equal to `name`.
pub open spec fn without_name(v: Seq<String>, name: Seq<char>) -> Seq<String> {
    v.filter(|s: String| s@ != name)
}

/// A scheduler frontend that differs from `old` only by one more registered property.
pub open spec fn registered(old: SchedulerFrontend, new: SchedulerFrontend, name: String) -> bool {
    &&& new.properties@ == old.properties@.push(name)
    &&& new.widgets_to_update@ == old.widgets_to_update@
    &&& new.scheduled_tasks@ == old.scheduled_tasks@
    &&& new.force_redraw == old.force_redraw
}

/// A scheduler frontend that differs from `old` only by having `name` unregistered.
pub open spec fn unregistered(old: SchedulerFrontend, new: SchedulerFrontend, name: Seq<char>) -> bool {
    &&& new.properties@ == without_name(old.properties@, name)
    &&& new.widgets_to_update@ == old.widgets_to_update@
    &&& new.scheduled_tasks@ == old.scheduled_tasks@
    &&& new.force_redraw == old.force_redraw
}

/// Join a base name and a suffix: `"{base}{suffix}"`.
pub fn join_name(base: &String, suffix: &str) -> (r: String)
    ensures
        r@ == base@ + suffix@,
{
    let mut r = base.clone();
    r.append(suffix);
    r
}

impl SchedulerFrontend {
    /// A frontend with nothing registered or requested.
    pub fn new() -> (s: SchedulerFrontend)
        ensures
            s.properties@.len() == 0,
            s.widgets_to_update@.len() == 0,
            s.scheduled_tasks@.len() == 0,
            !s.force_redraw,
    {
        SchedulerFrontend {
            properties: Vec::new(),
            widgets_to_update: Vec::new(),
            scheduled_tasks: Vec::new(),
            force_redraw: false,
        }
    }

    /// Create a property and register its name.
    pub fn new_property<T>(&mut self, name: String, value: T) -> (p: EzProperty<T>)
        ensures
            p.name == name,
            p.value == value,
            registered(*old(self), *final(self), name),
    {
        self.properties.push(name.clone());
        EzProperty { name, value }
    }

    /// Create a `usize` property and register its name.
    pub fn new_usize_property(&mut self, name: String, value: usize) -> (p: EzProperty<usize>)
        ensures
            p.name == name,
            p.value == value,
            registered(*old(self), *final(self), name),
    {
        self.new_property(name, value)
    }

    /// Create a `bool` property and register its name.
    pub fn new_bool_property(&mut self, name: String, value: bool) -> (p: EzProperty<bool>)
        ensures
            p.name == name,
            p.value == value,
            registered(*old(self), *final(self), name),
    {
        self.new_property(name, value)
    }

    /// Create a `String` property and register its name.
    pub fn new_string_property(&mut self, name: String, value: String) -> (p: EzProperty<String>)
        ensures
            p.name == name,
            p.value == value,
            registered(*old(self), *final(self), name),
    {
        self.new_property(name, value)
    }

    /// Ask for the widget at `path` to be redrawn.
    pub fn update_widget(&mut self, path: String)
        ensures
            final(self).widgets_to_update@ == old(self).widgets_to_update@.push(path),
            *final(self) == (SchedulerFrontend { widgets_to_update: final(self).widgets_to_update, ..*old(self) }),
    {
        self.widgets_to_update.push(path);
    }

    /// Ask for the whole screen to be redrawn on the next frame.
    pub fn set_force_redraw(&mut self)
        ensures
            *final(self) == (SchedulerFrontend { force_redraw: true, ..*old(self) }),
    {
        self.force_redraw = true;
    }

    /// Ask for a task to run once after `delay_ms` milliseconds.
    pub fn schedule_once(&mut self, name: String, action: TaskAction, delay_ms: u64)
        ensures
            final(self).scheduled_tasks@ == old(self).scheduled_tasks@.push(
                ScheduledTask { name, delay_ms, action },
            ),
            *final(self) == (SchedulerFrontend { scheduled_tasks: final(self).scheduled_tasks, ..*old(self) }),
    {
        self.scheduled_tasks.push(ScheduledTask { name, delay_ms, action });
    }
}

/// Unregister every property called `name`.
pub fn clean_up_property(scheduler: &mut SchedulerFrontend, name: &String)
    ensures
        unregistered(*old(scheduler), *final(scheduler), name@),
{
    let ghost pred = |s: String| s@ != name@;
    let mut kept: Vec<String> = Vec::new();
    let mut i: usize = 0;
    while i < scheduler.properties.len()
        invariant
            i <= scheduler.properties.len(),
            scheduler.properties@ == old(scheduler).properties@,
            pred == (|s: String| s@ != name@),
            kept@ == scheduler.properties@.subrange(0, i as int).filter(pred),
        decreases scheduler.properties.len() - i,
    {
        let ghost before = scheduler.properties@.subrange(0, i as int);
        assert(scheduler.properties@.subrange(0, i + 1).drop_last() =~= before);
        let ghost old_kept = kept@;
        let p = &scheduler.properties[i];
        let keep = !p.eq(name);
        if keep {
            kept.push(p.clone());
        }
        proof {
            reveal(Seq::filter);
            let next = scheduler.properties@.subrange(0, i + 1);
            assert(next.last() == scheduler.properties@[i as int]);
            assert(pred(next.last()) == keep);
            assert(next.drop_last() == before);
            assert(next.filter(pred) == (if pred(next.last()) {
                before.filter(pred).push(next.last())
            } else {
                before.filter(pred)
            }));
            assert(kept@ =~= next.filter(pred));
        }
        i = i + 1;
    }
    assert(scheduler.properties@.subrange(0, i as int) =~= scheduler.properties@);
    scheduler.properties = kept;
}

} // verus!

verus! {

/// A list of names without the entries equal to any of `ns`, removed in order.
pub open spec fn without_names(v: Seq<String>, ns: Seq<Seq<char>>) -> Seq<String>
    decreases ns.len(),
{
    if ns.len() == 0 {
        v
    } else {
        without_name(without_names(v, ns.drop_last()), ns.last())
    }
}

/// Unregister each of the given property names, in order.
pub fn clean_up_properties_named(scheduler: &mut SchedulerFrontend, list: &Vec<String>)
    ensures
        final(scheduler).properties@ == without_names(old(scheduler).properties@, names(list@)),
        final(scheduler).widgets_to_update@ == old(scheduler).widgets_to_update@,
        final(scheduler).scheduled_tasks@ == old(scheduler).scheduled_tasks@,
        final(scheduler).force_redraw == old(scheduler).force_redraw,
{
    let mut i: usize = 0;
    while i < list.len()
        invariant
            i <= list.len(),
            scheduler.properties@ == without_names(
                old(scheduler).properties@,
                names(list@).subrange(0, i as int),
            ),
            scheduler.widgets_to_update@ == old(scheduler).widgets_to_update@,
            scheduler.scheduled_tasks@ == old(scheduler).scheduled_tasks@,
            scheduler.force_redraw == old(scheduler).force_redraw,
        decreases list.len() - i,
    {
        clean_up_property(scheduler, &list[i]);
        proof {
            let next = names(list@).subrange(0, i + 1);
            assert(next.drop_last() =~= names(list@).subrange(0, i as int));
            assert(next.last() == list@[i as int]@);
        }
        i = i + 1;
    }
    assert(names(list@).subrange(0, i as int) =~= names(list@));
}

} // verus!
