//! The shared application state: what the event loop, the screens and the
//! backend tasks all read and change.
//!
//! Each field is a value of its own, so that whoever shares the state can
//! guard each field by itself and hold no guard longer than one operation
//! takes.

use vstd::prelude::*;
use crate::identifier::Identifier;
use crate::task::{Identity, StateDiff};

verus! {

/// Whether `known` holds an identity with this identifier.
pub open spec fn holds(known: Seq<Identity>, id: Identifier) -> bool {
    exists|i: int| 0 <= i < known.len() && (#[trigger] known[i]).id == id
}

/// Whether no identifier occurs twice in `known`.
pub open spec fn distinct(known: Seq<Identity>) -> bool {
    forall|i: int, j: int|
        0 <= i < j < known.len() ==> (#[trigger] known[i]).id != (#[trigger] known[j]).id
}

/// `known` after `identity` was entered: in the place of the identity with its
/// identifier where there is one, and at the end where there is none.
pub open spec fn entered(known: Seq<Identity>, identity: Identity) -> Seq<Identity> {
    if holds(known, identity.id) {
        let at = choose|i: int| 0 <= i < known.len() && (#[trigger] known[i]).id == identity.id;
        known.update(at, identity)
    } else {
        known.push(identity)
    }
}

/// `known` after `identity` was added unless its identifier was there already.
pub open spec fn added_if_absent(known: Seq<Identity>, identity: Identity) -> Seq<Identity> {
    if holds(known, identity.id) {
        known
    } else {
        known.push(identity)
    }
}

/// The identities that the explorer has seen, each identifier once, in the
/// order in which they were first seen.
pub struct KnownIdentities {
    entries: Vec<Identity>,
}

impl View for KnownIdentities {
    type V = Seq<Identity>;

    closed spec fn view(&self) -> Seq<Identity> {
        self.entries@
    }
}

impl KnownIdentities {
    /// What holds of the known identities: no identifier occurs twice.
    pub open spec fn wf(&self) -> bool {
        distinct(self@)
    }

    /// No identity.
    pub fn new() -> (known: KnownIdentities)
        ensures
            known@ == Seq::<Identity>::empty(),
            known.wf(),
    {
        KnownIdentities { entries: Vec::new() }
    }

    /// How many identities are known.
    pub fn len(&self) -> (len: usize)
        ensures
            len == self@.len(),
    {
        self.entries.len()
    }

    fn position(&self, id: &Identifier) -> (at: Option<usize>)
        ensures
            match at {
                Some(at) => at < self@.len() && self@[at as int].id == *id,
                None => !holds(self@, *id),
            },
    {
        let mut i: usize = 0;
        while i < self.entries.len()
            invariant
                i <= self.entries.len(),
                forall|j: int| 0 <= j < i ==> (#[trigger] self.entries@[j]).id != *id,
            decreases self.entries.len() - i,
        {
            if self.entries[i].id.same_as(id) {
                return Some(i);
            }
            i += 1;
        }
        None
    }

    /// The known identity with this identifier.
    pub fn get(&self, id: &Identifier) -> (found: Option<Identity>)
        ensures
            match found {
                Some(identity) => identity.id == *id && self@.contains(identity),
                None => !holds(self@, *id),
            },
    {
        match self.position(id) {
            Some(at) => Some(self.entries[at]),
            None => None,
        }
    }

    /// Whether an identity with this identifier is known.
    pub fn contains(&self, id: &Identifier) -> (known: bool)
        ensures
            known == holds(self@, *id),
    {
        self.position(id).is_some()
    }

    /// Adds `identity` unless one with its identifier is known already, and
    /// says whether it added it.
    pub fn insert_if_absent(&mut self, identity: Identity) -> (inserted: bool)
        requires
            old(self).wf(),
        ensures
            final(self).wf(),
            inserted == !holds(old(self)@, identity.id),
            final(self)@ == added_if_absent(old(self)@, identity),
    {
        match self.position(&identity.id) {
            Some(_) => false,
            None => {
                self.entries.push(identity);
                true
            },
        }
    }

    /// Enters `identity`: in the place of the known identity with its
    /// identifier, or as a new one.
    pub fn refresh(&mut self, identity: Identity)
        requires
            old(self).wf(),
        ensures
            final(self).wf(),
            final(self)@ == entered(old(self)@, identity),
            final(self)@.len() == old(self)@.len() + if holds(old(self)@, identity.id) {
                0int
            } else {
                1int
            },
            holds(final(self)@, identity.id),
            final(self)@.contains(identity),
    {
        let ghost before = self.entries@;
        match self.position(&identity.id) {
            Some(at) => {
                proof {
                    let chosen = choose|i: int|
                        0 <= i < before.len() && (#[trigger] before[i]).id == identity.id;
                    assert(chosen == at);
                }
                self.entries.set(at, identity);
                assert(self.entries@[at as int] == identity);
            },
            None => {
                self.entries.push(identity);
                assert(self.entries@[before.len() as int] == identity);
            },
        }
    }
}

/// The shared application state.
pub struct AppState {
    /// The operator's active account.
    pub loaded_identity: Option<Identity>,
    /// Every identity seen so far.
    pub known_identities: KnownIdentities,
    /// The name of the strategy that is chosen.
    pub selected_strategy: Option<String>,
    /// The names under which strategies are registered.
    pub strategies: Vec<String>,
}

/// Makes a session fresh: the loaded identity, if there is one, becomes a
/// known identity unless it is one already, and no strategy is selected,
/// whatever was selected before.
pub fn initialize_session(
    loaded_identity: &Option<Identity>,
    known_identities: &mut KnownIdentities,
    selected_strategy: &mut Option<String>,
)
    requires
        old(known_identities).wf(),
    ensures
        final(known_identities).wf(),
        *final(selected_strategy) is None,
        final(known_identities)@ == (match *loaded_identity {
            Some(identity) => added_if_absent(old(known_identities)@, identity),
            None => old(known_identities)@,
        }),
{
    match loaded_identity {
        Some(identity) => {
            known_identities.insert_if_absent(*identity);
        },
        None => {},
    }
    *selected_strategy = None;
}

impl AppState {
    /// The state of a first session: nothing loaded, nothing known.
    pub fn new() -> (state: AppState)
        ensures
            state.wf(),
            state.loaded_identity is None,
            state.known_identities@ == Seq::<Identity>::empty(),
            state.selected_strategy is None,
            state.strategies@ == Seq::<String>::empty(),
    {
        AppState {
            loaded_identity: None,
            known_identities: KnownIdentities::new(),
            selected_strategy: None,
            strategies: Vec::new(),
        }
    }

    /// What holds of the state: its known identities are well formed.
    pub open spec fn wf(&self) -> bool {
        self.known_identities.wf()
    }

    /// What `diff` makes of the loaded identity.
    pub open spec fn loaded_after(self, diff: StateDiff) -> Option<Identity> {
        match diff {
            StateDiff::LoadedIdentity(identity) => Some(identity),
            _ => self.loaded_identity,
        }
    }

    /// What `diff` makes of the known identities.
    pub open spec fn known_after(self, diff: StateDiff) -> Seq<Identity> {
        match diff {
            StateDiff::LoadedIdentity(identity) => entered(self.known_identities@, identity),
            StateDiff::KnownIdentity(identity) => entered(self.known_identities@, identity),
            StateDiff::SelectedStrategy(_) => self.known_identities@,
        }
    }

    /// What `diff` makes of the selected strategy.
    pub open spec fn selected_after(self, diff: StateDiff) -> Option<String> {
        match diff {
            StateDiff::SelectedStrategy(selected) => selected,
            _ => self.selected_strategy,
        }
    }

    /// Makes the session fresh; see `initialize_session`.
    pub fn initialize(&mut self)
        requires
            old(self).wf(),
        ensures
            final(self).wf(),
            final(self).selected_strategy is None,
            final(self).loaded_identity == old(self).loaded_identity,
            final(self).strategies == old(self).strategies,
            final(self).known_identities@ == (match old(self).loaded_identity {
                Some(identity) => added_if_absent(old(self).known_identities@, identity),
                None => old(self).known_identities@,
            }),
    {
        initialize_session(
            &self.loaded_identity,
            &mut self.known_identities,
            &mut self.selected_strategy,
        );
    }

    /// Applies the state change that a task reported. An identity that is
    /// loaded is known as well.
    pub fn apply(&mut self, diff: StateDiff)
        requires
            old(self).wf(),
        ensures
            final(self).wf(),
            final(self).loaded_identity == old(self).loaded_after(diff),
            final(self).known_identities@ == old(self).known_after(diff),
            final(self).selected_strategy == old(self).selected_after(diff),
            final(self).strategies == old(self).strategies,
    {
        match diff {
            StateDiff::LoadedIdentity(identity) => {
                self.known_identities.refresh(identity);
                self.loaded_identity = Some(identity);
            },
            StateDiff::KnownIdentity(identity) => {
                self.known_identities.refresh(identity);
            },
            StateDiff::SelectedStrategy(selected) => {
                self.selected_strategy = selected;
            },
        }
    }
}

/// A fresh session knows its loaded identity, selects no strategy, and making
/// it fresh a second time changes nothing more.
pub proof fn fresh_session_is_stable(known: Seq<Identity>, identity: Identity)
    requires
        distinct(known),
    ensures
        distinct(added_if_absent(known, identity)),
        holds(added_if_absent(known, identity), identity.id),
        added_if_absent(added_if_absent(known, identity), identity) == added_if_absent(
            known,
            identity,
        ),
        forall|i: int| 0 <= i < known.len() ==> added_if_absent(known, identity)[i] == known[i],
{
    let after = added_if_absent(known, identity);
    if !holds(known, identity.id) {
        assert(after[known.len() as int].id == identity.id);
    }
}

/// Entering an identity changes no other: every identity with another
/// identifier stays in its place, no identifier comes to occur twice, and the
/// identity entered is the one found under its identifier afterwards.
pub proof fn entering_keeps_the_others(known: Seq<Identity>, identity: Identity)
    requires
        distinct(known),
    ensures
        distinct(entered(known, identity)),
        known.len() <= entered(known, identity).len() <= known.len() + 1,
        forall|i: int|
            0 <= i < known.len() && (#[trigger] known[i]).id != identity.id ==> entered(
                known,
                identity,
            )[i] == known[i],
        forall|i: int|
            0 <= i < entered(known, identity).len() && (#[trigger] entered(known, identity)[i]).id
                == identity.id ==> entered(known, identity)[i] == identity,
{
    let after = entered(known, identity);
    if holds(known, identity.id) {
        let at = choose|i: int| 0 <= i < known.len() && (#[trigger] known[i]).id == identity.id;
        assert forall|i: int, j: int| 0 <= i < j < after.len() implies (#[trigger] after[i]).id != (
        #[trigger] after[j]).id by {
            assert(known[i].id != known[j].id);
        }
        assert forall|i: int|
            0 <= i < after.len() && (#[trigger] after[i]).id == identity.id implies after[i]
            == identity by {
            if i != at {
                assert(known[i].id == identity.id);
                if i < at {
                    assert(known[i].id != known[at].id);
                } else {
                    assert(known[at].id != known[i].id);
                }
            }
        }
    } else {
        assert forall|i: int, j: int| 0 <= i < j < after.len() implies (#[trigger] after[i]).id != (
        #[trigger] after[j]).id by {
            if j < known.len() {
                assert(known[i].id != known[j].id);
            } else {
                assert(known[i].id != identity.id);
            }
        }
        assert forall|i: int|
            0 <= i < after.len() && (#[trigger] after[i]).id == identity.id implies after[i]
            == identity by {
            if i < known.len() {
                assert(known[i].id == identity.id);
            }
        }
    }
}

} // verus!
