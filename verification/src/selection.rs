//! The set of asset categories chosen for a run.

use crate::api::models::AssetType;
use vstd::prelude::*;

verus! {

/// A set of asset categories. Its members are always visited in the fixed
/// order grid, hero, logo, icon.
#[derive(Debug, Clone, Copy, PartialEq, Eq, Structural)]
pub struct AssetSelection {
    pub grid: bool,
    pub hero: bool,
    pub logo: bool,
    pub icon: bool,
}

/// The one-element sequence `[kind]` if `chosen`, the empty sequence otherwise.
pub open spec fn seq_if(chosen: bool, kind: AssetType) -> Seq<AssetType> {
    if chosen {
        seq![kind]
    } else {
        Seq::empty()
    }
}

impl View for AssetSelection {
    type V = Set<AssetType>;

    open spec fn view(&self) -> Set<AssetType> {
        Set::new(|kind: AssetType| self.spec_contains(kind))
    }
}

impl AssetSelection {
    /// Whether `kind` is a member.
    pub open spec fn spec_contains(&self, kind: AssetType) -> bool {
        match kind {
            AssetType::Grid => self.grid,
            AssetType::Hero => self.hero,
            AssetType::Logo => self.logo,
            AssetType::Icon => self.icon,
        }
    }

    /// The members in visiting order.
    pub open spec fn to_seq(&self) -> Seq<AssetType> {
        seq_if(self.grid, AssetType::Grid) + seq_if(self.hero, AssetType::Hero) + seq_if(
            self.logo,
            AssetType::Logo,
        ) + seq_if(self.icon, AssetType::Icon)
    }

    /// Number of members.
    pub open spec fn spec_len(&self) -> nat {
        self.to_seq().len()
    }

    /// The set without members.
    pub fn empty() -> (selection: AssetSelection)
        ensures
            selection@ == Set::<AssetType>::empty(),
            selection.to_seq() == Seq::<AssetType>::empty(),
    {
        let selection = AssetSelection { grid: false, hero: false, logo: false, icon: false };
        assert(selection@ =~= Set::<AssetType>::empty());
        selection
    }

    /// The set of all four categories.
    pub fn full() -> (selection: AssetSelection)
        ensures
            selection@ == Set::<AssetType>::full(),
            selection.to_seq() == AssetType::spec_all(),
    {
        let selection = AssetSelection { grid: true, hero: true, logo: true, icon: true };
        assert(selection@ =~= Set::<AssetType>::full());
        selection
    }

    /// The set of the categories that occur in `kinds`.
    pub fn from_slice(kinds: &[AssetType]) -> (selection: AssetSelection)
        ensures
            forall|kind: AssetType| selection@.contains(kind) <==> kinds@.contains(kind),
    {
        let mut selection = AssetSelection { grid: false, hero: false, logo: false, icon: false };
        let mut i: usize = 0;
        while i < kinds.len()
            invariant
                i <= kinds.len(),
                forall|kind: AssetType|
                    selection.spec_contains(kind) <==> kinds@.take(i as int).contains(kind),
            decreases kinds.len() - i,
        {
            let kind = kinds[i];
            selection.insert(kind);
            assert(kinds@.take(i + 1) == kinds@.take(i as int).push(kind));
            assert forall|other: AssetType|
                selection.spec_contains(other) <==> kinds@.take(i + 1).contains(other) by {
                if kinds@.take(i as int).contains(other) {
                    let j = choose|j: int|
                        0 <= j < kinds@.take(i as int).len() && kinds@.take(i as int)[j] == other;
                    assert(kinds@.take(i + 1)[j] == other);
                }
                if other == kind {
                    assert(kinds@.take(i + 1)[i as int] == other);
                }
            }
            i = i + 1;
        }
        assert(kinds@.take(kinds.len() as int) == kinds@);
        selection
    }

    /// Whether `kind` is a member.
    pub fn contains(&self, kind: AssetType) -> (member: bool)
        ensures
            member == self@.contains(kind),
            member == self.spec_contains(kind),
    {
        match kind {
            AssetType::Grid => self.grid,
            AssetType::Hero => self.hero,
            AssetType::Logo => self.logo,
            AssetType::Icon => self.icon,
        }
    }

    /// Adds `kind`; tells whether it was new.
    pub fn insert(&mut self, kind: AssetType) -> (added: bool)
        ensures
            final(self)@ == old(self)@.insert(kind),
            added == !old(self)@.contains(kind),
            forall|other: AssetType|
                final(self).spec_contains(other) == (other == kind || old(self).spec_contains(
                    other,
                )),
    {
        let added = !self.contains(kind);
        match kind {
            AssetType::Grid => {
                self.grid = true;
            },
            AssetType::Hero => {
                self.hero = true;
            },
            AssetType::Logo => {
                self.logo = true;
            },
            AssetType::Icon => {
                self.icon = true;
            },
        }
        assert(self@ =~= old(self)@.insert(kind));
        added
    }

    /// Removes `kind`; tells whether it was a member.
    pub fn remove(&mut self, kind: AssetType) -> (removed: bool)
        ensures
            final(self)@ == old(self)@.remove(kind),
            removed == old(self)@.contains(kind),
            forall|other: AssetType|
                final(self).spec_contains(other) == (other != kind && old(self).spec_contains(
                    other,
                )),
    {
        let removed = self.contains(kind);
        match kind {
            AssetType::Grid => {
                self.grid = false;
            },
            AssetType::Hero => {
                self.hero = false;
            },
            AssetType::Logo => {
                self.logo = false;
            },
            AssetType::Icon => {
                self.icon = false;
            },
        }
        assert(self@ =~= old(self)@.remove(kind));
        removed
    }

    /// Removes every member.
    pub fn clear(&mut self)
        ensures
            final(self)@ == Set::<AssetType>::empty(),
            final(self).to_seq() == Seq::<AssetType>::empty(),
    {
        self.grid = false;
        self.hero = false;
        self.logo = false;
        self.icon = false;
        assert(self@ =~= Set::<AssetType>::empty());
    }

    /// Number of members.
    pub fn len(&self) -> (count: usize)
        ensures
            count == self.spec_len(),
            count <= 4,
    {
        let mut count: usize = 0;
        if self.grid {
            count = count + 1;
        }
        if self.hero {
            count = count + 1;
        }
        if self.logo {
            count = count + 1;
        }
        if self.icon {
            count = count + 1;
        }
        count
    }

    /// Whether there is no member.
    pub fn is_empty(&self) -> (none: bool)
        ensures
            none == (self.spec_len() == 0),
            none == (self@ == Set::<AssetType>::empty()),
    {
        let none = !self.grid && !self.hero && !self.logo && !self.icon;
        proof {
            if none {
                assert(self@ =~= Set::<AssetType>::empty());
            } else {
                let witness = if self.grid {
                    AssetType::Grid
                } else if self.hero {
                    AssetType::Hero
                } else if self.logo {
                    AssetType::Logo
                } else {
                    AssetType::Icon
                };
                assert(self@.contains(witness));
            }
        }
        none
    }

    /// The members in visiting order.
    pub fn to_vec(&self) -> (kinds: Vec<AssetType>)
        ensures
            kinds@ == self.to_seq(),
    {
        let mut kinds: Vec<AssetType> = Vec::new();
        if self.grid {
            kinds.push(AssetType::Grid);
        }
        if self.hero {
            kinds.push(AssetType::Hero);
        }
        if self.logo {
            kinds.push(AssetType::Logo);
        }
        if self.icon {
            kinds.push(AssetType::Icon);
        }
        assert(kinds@ =~= self.to_seq());
        kinds
    }

    /// The visiting order lists each member once and nothing else, in the
    /// order of `AssetType::spec_all()`.
    pub proof fn lemma_to_seq(&self)
        ensures
            self.to_seq().no_duplicates(),
            forall|kind: AssetType| self.to_seq().contains(kind) <==> self@.contains(kind),
            forall|i: int, j: int|
                0 <= i < j < self.to_seq().len() ==> self.to_seq()[i].spec_index()
                    < self.to_seq()[j].spec_index(),
            self.to_seq().len() == self@.len(),
            self@.finite(),
    {
        let s = self.to_seq();
        assert forall|kind: AssetType| s.contains(kind) <==> self@.contains(kind) by {
            if self@.contains(kind) {
                let before: int = match kind {
                    AssetType::Grid => 0,
                    AssetType::Hero => seq_if(self.grid, AssetType::Grid).len() as int,
                    AssetType::Logo => (seq_if(self.grid, AssetType::Grid) + seq_if(
                        self.hero,
                        AssetType::Hero,
                    )).len() as int,
                    AssetType::Icon => (seq_if(self.grid, AssetType::Grid) + seq_if(
                        self.hero,
                        AssetType::Hero,
                    ) + seq_if(self.logo, AssetType::Logo)).len() as int,
                };
                assert(s[before] == kind);
            }
        }
        assert(s.to_set() =~= self@);
        s.unique_seq_to_set();
    }
}

} // verus!
