//! Which profiles are active, previous, default and master.

use vstd::prelude::*;

use crate::views;

verus! {

/// The pointers that the state file keeps, over the type of their text.
#[derive(Debug, PartialEq, Eq)]
pub struct StateOf<T> {
    pub active: Option<T>,
    pub previous: Option<T>,
    pub default: Option<T>,
    pub master: Option<T>,
}

/// The state of running code.
pub type State = StateOf<String>;

impl<T: View> View for StateOf<T> {
    type V = StateOf<T::V>;

    open spec fn view(&self) -> StateOf<T::V> {
        StateOf {
            active: views::opt(self.active),
            previous: views::opt(self.previous),
            default: views::opt(self.default),
            master: views::opt(self.master),
        }
    }
}

/// `slot` with the name `from` replaced by `to`.
pub open spec fn renamed_slot<T>(slot: Option<T>, from: T, to: T) -> Option<T> {
    if slot == Some(from) {
        Some(to)
    } else {
        slot
    }
}

/// A pointer is `after` what it was `before`, except that it names `to` where it named `from`.
pub open spec fn is_moved<T>(before: Option<T>, after: Option<T>, from: T, to: T) -> bool {
    &&& before == Some(from) ==> after == Some(to)
    &&& before != Some(from) ==> after == before
}

impl<T> StateOf<T> {
    /// The state of a fresh installation.
    pub open spec fn fresh() -> StateOf<T> {
        StateOf { active: None, previous: None, default: None, master: None }
    }

    /// A loaded state; a fresh one where there is none to load.
    pub open spec fn or_fresh(loaded: Option<StateOf<T>>) -> StateOf<T> {
        match loaded {
            Some(state) => state,
            None => StateOf::fresh(),
        }
    }

    /// The state after a switch to `target`. What was active becomes the previous
    /// profile, unless it is `target` itself.
    pub open spec fn switched(self, target: T) -> StateOf<T> {
        StateOf {
            active: Some(target),
            previous: if self.active == Some(target) {
                self.previous
            } else {
                self.active
            },
            ..self
        }
    }

    /// The state after the profile `from` was renamed to `to`.
    pub open spec fn renamed(self, from: T, to: T) -> StateOf<T> {
        StateOf {
            active: renamed_slot(self.active, from, to),
            previous: renamed_slot(self.previous, from, to),
            default: renamed_slot(self.default, from, to),
            master: renamed_slot(self.master, from, to),
        }
    }

    /// Some pointer names `name`.
    pub open spec fn mentions(self, name: T) -> bool {
        ||| self.active == Some(name)
        ||| self.previous == Some(name)
        ||| self.default == Some(name)
        ||| self.master == Some(name)
    }
}

impl StateOf<String> {
    /// A loaded state; a fresh one where there is none to load.
    pub fn loaded(state: Option<State>) -> (res: State)
        ensures
            res@ == StateOf::or_fresh(views::opt(state)),
            match state {
                Some(state) => res == state,
                None => res.active is None && res.previous is None && res.default is None
                    && res.master is None,
            },
    {
        match state {
            Some(state) => state,
            None => StateOf { active: None, previous: None, default: None, master: None },
        }
    }

    /// A copy of the state.
    pub fn copy(&self) -> (res: State)
        ensures
            res@ == self@,
            views::opt(res.active) == views::opt(self.active),
            views::opt(res.previous) == views::opt(self.previous),
            views::opt(res.default) == views::opt(self.default),
            views::opt(res.master) == views::opt(self.master),
    {
        StateOf {
            active: views::copy_opt(&self.active),
            previous: views::copy_opt(&self.previous),
            default: views::copy_opt(&self.default),
            master: views::copy_opt(&self.master),
        }
    }

    /// Records a switch to `target`.
    pub fn switch_to(self, target: &String) -> (res: State)
        ensures
            res@ == self@.switched(target@),
            views::opt(res.active) == Some(target@),
            views::opt(res.previous) == if views::opt(self.active) == Some(target@) {
                views::opt(self.previous)
            } else {
                views::opt(self.active)
            },
            views::opt(res.default) == views::opt(self.default),
            views::opt(res.master) == views::opt(self.master),
    {
        let previous: Option<String> = if views::is_text(&self.active, target) {
            self.previous
        } else {
            self.active
        };
        StateOf {
            active: Some(target.clone()),
            previous,
            default: self.default,
            master: self.master,
        }
    }

    /// Whether some pointer names `name`.
    pub fn names(&self, name: &String) -> (res: bool)
        ensures
            res == self@.mentions(name@),
            res <==> {
                ||| views::opt(self.active) == Some(name@)
                ||| views::opt(self.previous) == Some(name@)
                ||| views::opt(self.default) == Some(name@)
                ||| views::opt(self.master) == Some(name@)
            },
    {
        views::is_text(&self.active, name) || views::is_text(&self.previous, name)
            || views::is_text(&self.default, name) || views::is_text(&self.master, name)
    }

    /// Records that the profile `from` was renamed to `to`.
    pub fn rename(self, from: &String, to: &String) -> (res: State)
        ensures
            res@ == self@.renamed(from@, to@),
            is_moved(views::opt(self.active), views::opt(res.active), from@, to@),
            is_moved(views::opt(self.previous), views::opt(res.previous), from@, to@),
            is_moved(views::opt(self.default), views::opt(res.default), from@, to@),
            is_moved(views::opt(self.master), views::opt(res.master), from@, to@),
    {
        StateOf {
            active: rename_slot(self.active, from, to),
            previous: rename_slot(self.previous, from, to),
            default: rename_slot(self.default, from, to),
            master: rename_slot(self.master, from, to),
        }
    }
}

fn rename_slot(slot: Option<String>, from: &String, to: &String) -> (res: Option<String>)
    ensures
        views::opt(res) == renamed_slot(views::opt(slot), from@, to@),
{
    if views::is_text(&slot, from) {
        Some(to.clone())
    } else {
        slot
    }
}

/// Switching away and back toggles the two profiles: what was active is the previous
/// profile after the first switch, and active again after the second, with the other
/// one as the previous profile.
pub proof fn law_switching_back_toggles<T>(state: StateOf<T>, from: T, to: T)
    requires
        state.active == Some(from),
        from != to,
    ensures
        state.switched(to).previous == Some(from),
        state.switched(to).switched(from) == (StateOf { previous: Some(to), ..state }),
{
}

/// Selecting the active profile again leaves every pointer where it is.
pub proof fn law_reselecting_changes_nothing<T>(state: StateOf<T>, name: T)
    requires
        state.active == Some(name),
    ensures
        state.switched(name) == state,
{
}

/// After a rename no pointer names the old profile; a pointer names the new one exactly
/// where one of the two was named before; and renaming back restores the state, if
/// nothing named the new profile before.
pub proof fn law_rename_moves_every_pointer<T>(state: StateOf<T>, from: T, to: T)
    requires
        from != to,
    ensures
        !state.renamed(from, to).mentions(from),
        state.renamed(from, to).mentions(to) <==> state.mentions(from) || state.mentions(to),
        !state.mentions(to) ==> state.renamed(from, to).renamed(to, from) == state,
        !state.mentions(from) ==> state.renamed(from, to) == state,
{
}

/// A rename acts on each pointer by itself: each one names the new profile afterwards where
/// that same pointer named the old one before, and is the same as before otherwise.
pub proof fn law_rename_acts_on_each_pointer<T>(state: StateOf<T>, from: T, to: T)
    ensures
        state.active == Some(from) ==> state.renamed(from, to).active == Some(to),
        state.active != Some(from) ==> state.renamed(from, to).active == state.active,
        state.previous == Some(from) ==> state.renamed(from, to).previous == Some(to),
        state.previous != Some(from) ==> state.renamed(from, to).previous == state.previous,
        state.default == Some(from) ==> state.renamed(from, to).default == Some(to),
        state.default != Some(from) ==> state.renamed(from, to).default == state.default,
        state.master == Some(from) ==> state.renamed(from, to).master == Some(to),
        state.master != Some(from) ==> state.renamed(from, to).master == state.master,
{
}

/// A switch sets the active pointer to the target, hands what was active on to the previous
/// pointer unless that is the target itself, and leaves the other two pointers alone.
pub proof fn law_switch_sets_two_pointers<T>(state: StateOf<T>, target: T)
    ensures
        state.switched(target).active == Some(target),
        state.active != Some(target) ==> state.switched(target).previous == state.active,
        state.active == Some(target) ==> state.switched(target).previous == state.previous,
        state.switched(target).default == state.default,
        state.switched(target).master == state.master,
{
}

/// A state that cannot be loaded points nowhere; one that can be is taken as it is. A name
/// is mentioned where one of the four pointers is it.
pub proof fn law_state_is_taken_as_loaded<T>(state: StateOf<T>, name: T)
    ensures
        StateOf::or_fresh(Some(state)) == state,
        !StateOf::or_fresh(None).mentions(name),
        StateOf::<T>::or_fresh(None).active is None,
        StateOf::<T>::or_fresh(None).previous is None,
        StateOf::<T>::or_fresh(None).default is None,
        StateOf::<T>::or_fresh(None).master is None,
        state.active == Some(name) ==> state.mentions(name),
        state.previous == Some(name) ==> state.mentions(name),
        state.default == Some(name) ==> state.mentions(name),
        state.master == Some(name) ==> state.mentions(name),
        state.mentions(name) ==> state.active == Some(name) || state.previous == Some(name)
            || state.default == Some(name) || state.master == Some(name),
{
}

/// A state is seen whole: each pointer in its own place.
pub proof fn law_state_is_seen_whole<T: View>(state: StateOf<T>)
    ensures
        state@.active == views::opt(state.active),
        state@.previous == views::opt(state.previous),
        state@.default == views::opt(state.default),
        state@.master == views::opt(state.master),
{
}

} // verus!
