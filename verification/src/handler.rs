//! The registration slot of a global handler: at most one handler is
//! installed at a time, and each installation gets its own identifier so
//! that only its own owner can remove it.

use vstd::prelude::*;

verus! {

/// A slot holding at most one registered state, with the identifier of the
/// registration, and the identifier the next registration gets.
pub struct Registry<S> {
    slot: Option<(u64, S)>,
    next_id: u64,
}

impl<S> Registry<S> {
    /// The identifier of the held registration is never the one the next
    /// registration gets.
    #[verifier::type_invariant]
    pub closed spec fn well_formed(self) -> bool {
        self.slot matches Some((id, _)) ==> id != self.next_id
    }

    /// The registration in the slot, with its identifier.
    pub closed spec fn registration(&self) -> Option<(u64, S)> {
        self.slot
    }

    /// The identifier the next registration gets.
    pub closed spec fn next_registration_id(&self) -> u64 {
        self.next_id
    }

    /// The slot after `state` is installed.
    pub closed spec fn installed(self, state: S) -> Self {
        Registry { slot: Some((self.next_id, state)), next_id: self.next_id.wrapping_add(1) }
    }

    /// The slot after the registration with identifier `id` is removed.
    pub closed spec fn removed(self, id: u64) -> Self {
        match self.slot {
            Some((current, _)) => if current == id {
                Registry { slot: None, next_id: self.next_id }
            } else {
                self
            },
            None => self,
        }
    }

    /// An empty slot; the first registration gets identifier 1.
    pub fn new() -> (r: Self)
        ensures
            r.registration() is None,
            r.next_registration_id() == 1,
            r.well_formed(),
    {
        Registry { slot: None, next_id: 1 }
    }

    /// Installs `state`, replacing (and dropping) any earlier registration,
    /// and returns the new registration's identifier.
    pub fn install(&mut self, state: S) -> (id: u64)
        ensures
            id == old(self).next_registration_id(),
            final(self).registration() == Some((id, state)),
            final(self).next_registration_id() == old(self).next_registration_id().wrapping_add(1),
            *final(self) == old(self).installed(state),
            old(self).registration() matches Some((held, _)) ==> id != held,
            final(self).well_formed(),
    {
        proof { use_type_invariant(&*self); }
        let id = self.next_id;
        *self = Registry { slot: Some((id, state)), next_id: id.wrapping_add(1) };
        id
    }

    /// The registered state, if any.
    pub fn current(&self) -> (r: Option<&S>)
        ensures
            match self.registration() {
                Some((_, s)) => r == Some(&s),
                None => r is None,
            },
    {
        match &self.slot {
            Some((_, state)) => Some(state),
            None => None,
        }
    }

    /// Removes the registration with identifier `id`; a registration with
    /// another identifier stays.
    pub fn remove(&mut self, id: u64)
        ensures
            final(self).well_formed(),
            *final(self) == old(self).removed(id),
            final(self).next_registration_id() == old(self).next_registration_id(),
            match old(self).registration() {
                Some((current, s)) => if current == id {
                    final(self).registration() is None
                } else {
                    final(self).registration() == Some((current, s))
                },
                None => final(self).registration() is None,
            },
    {
        proof { use_type_invariant(&*self); }
        let matches = match &self.slot {
            Some((current, _)) => *current == id,
            None => false,
        };
        if matches {
            self.slot = None;
        }
        proof { use_type_invariant(&*self); }
    }
}

/// One operation on a registration slot: installing a state, or removing
/// the registration with an identifier.
pub enum RegistryStep<S> {
    Install(S),
    Remove(u64),
}

impl<S> Registry<S> {
    /// The slot after one operation.
    pub open spec fn after(self, step: RegistryStep<S>) -> Self {
        match step {
            RegistryStep::Install(state) => self.installed(state),
            RegistryStep::Remove(id) => self.removed(id),
        }
    }

    /// The slot after the operations in `steps`, first to last.
    pub open spec fn after_steps(self, steps: Seq<RegistryStep<S>>) -> Self
        decreases steps.len(),
    {
        if steps.len() == 0 {
            self
        } else {
            self.after_steps(steps.drop_last()).after(steps.last())
        }
    }

    /// The identifiers that the installations among `steps` return, in the
    /// order they are made.
    pub open spec fn issued_ids(self, steps: Seq<RegistryStep<S>>) -> Seq<u64>
        decreases steps.len(),
    {
        if steps.len() == 0 {
            Seq::empty()
        } else {
            let earlier = self.issued_ids(steps.drop_last());
            match steps.last() {
                RegistryStep::Install(_) => earlier.push(
                    self.after_steps(steps.drop_last()).next_registration_id(),
                ),
                RegistryStep::Remove(_) => earlier,
            }
        }
    }
}

/// Over any sequence of installations and removals, so long as identifiers
/// have not run out, the installations get consecutive identifiers from the
/// slot's next one, so no identifier is handed out twice; the slot then
/// holds nothing or the last installation; and removing with the identifier
/// of any earlier, replaced installation changes nothing.
pub proof fn law_identifiers_never_repeat<S>(r: Registry<S>, steps: Seq<RegistryStep<S>>)
    requires
        r.well_formed(),
        r.next_registration_id() + r.issued_ids(steps).len() <= u64::MAX,
    ensures
        ({
            let ids = r.issued_ids(steps);
            let end = r.after_steps(steps);
            &&& forall|k: int| 0 <= k < ids.len() ==> #[trigger] ids[k] == r.next_registration_id() + k
            &&& forall|i: int, j: int| 0 <= i < ids.len() && 0 <= j < ids.len() && i != j
                ==> #[trigger] ids[i] != #[trigger] ids[j]
            &&& end.next_registration_id() == r.next_registration_id() + ids.len()
            &&& end.well_formed()
            &&& ids.len() > 0 ==> match end.registration() {
                Some((held, _)) => held == ids.last(),
                None => true,
            }
            &&& forall|k: int| 0 <= k < ids.len() - 1 ==> end.removed(#[trigger] ids[k]) == end
        }),
    decreases steps.len(),
{
    if steps.len() > 0 {
        let earlier = steps.drop_last();
        law_identifiers_never_repeat(r, earlier);
        let before = r.after_steps(earlier);
        let next = before.next_registration_id();
        match steps.last() {
            RegistryStep::Install(_) => {
                assert(next < u64::MAX);
                assert(next.wrapping_add(1) == next + 1) by (bit_vector)
                    requires next < 0xffff_ffff_ffff_ffffu64;
            },
            RegistryStep::Remove(_) => {},
        }
    }
}

/// The state just installed is the current one, under the identifier the
/// installation returned.
pub proof fn law_installed_state_is_current<S>(r: Registry<S>, state: S)
    ensures
        r.installed(state).registration() == Some((r.next_registration_id(), state)),
{
}

/// Installing into a well-formed slot gives an identifier other than the
/// held one, and installing and removing keep the slot well formed.
pub proof fn law_installed_id_is_fresh<S>(r: Registry<S>, state: S, id: u64)
    requires
        r.well_formed(),
    ensures
        r.registration() matches Some((held, _)) ==> r.next_registration_id() != held,
        r.installed(state).well_formed(),
        r.removed(id).well_formed(),
{
}

/// Once a registration is replaced, removing it with its identifier leaves
/// the one that replaced it in place (so long as identifiers have not run
/// out).
pub proof fn law_replaced_registration_cannot_remove_its_successor<S>(r: Registry<S>, first: S, second: S)
    requires
        r.next_registration_id() < u64::MAX,
    ensures
        ({
            let first_id = r.next_registration_id();
            let replaced = r.installed(first).installed(second);
            &&& replaced.registration() == Some(((first_id + 1) as u64, second))
            &&& replaced.removed(first_id) == replaced
        }),
{
    let first_id = r.next_registration_id();
    assert(first_id.wrapping_add(1) == first_id + 1) by (bit_vector)
        requires first_id < 0xffff_ffff_ffff_ffffu64;
}

/// Removing a registration with its own identifier empties the slot, and
/// removing it again changes nothing.
pub proof fn law_removal_by_owner_empties_the_slot<S>(r: Registry<S>, state: S)
    ensures
        r.installed(state).removed(r.next_registration_id()).registration() is None,
        r.installed(state).removed(r.next_registration_id()).removed(r.next_registration_id())
            == r.installed(state).removed(r.next_registration_id()),
{
}

} // verus!
