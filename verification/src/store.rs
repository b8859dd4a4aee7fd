//! The profile store: a mapping from profile names to profiles, kept in
//! ascending order of the names.

use crate::profile::{HostConfig, HostConfigView};
use crate::text::{
    lemma_precedes_asymmetric, lemma_precedes_total, lemma_precedes_transitive, precedes, text_eq,
    text_precedes,
};
use vstd::prelude::*;

verus! {

/// A list of named profiles.
pub type Listing = Seq<(Seq<char>, HostConfigView)>;

/// The names of a listing strictly ascend, so no name occurs twice.
pub open spec fn ascending(list: Listing) -> bool {
    forall|i: int, j: int| 0 <= i < j < list.len() ==> precedes(#[trigger] list[i].0, #[trigger] list[j].0)
}

/// Whether a listing holds a profile of the given name.
pub open spec fn has(list: Listing, name: Seq<char>) -> bool {
    exists|i: int| 0 <= i < list.len() && #[trigger] list[i].0 == name
}

/// A place at which a listing holds the given name.
pub open spec fn place(list: Listing, name: Seq<char>) -> int {
    choose|i: int| 0 <= i < list.len() && #[trigger] list[i].0 == name
}

/// The mapping that a listing stands for.
pub open spec fn as_map(list: Listing) -> Map<Seq<char>, HostConfigView> {
    Map::new(|name: Seq<char>| has(list, name), |name: Seq<char>| list[place(list, name)].1)
}

/// Every profile of the listing names a host.
pub open spec fn all_valid(list: Listing) -> bool {
    forall|i: int| 0 <= i < list.len() ==> (#[trigger] list[i]).1.valid()
}

/// An ascending listing holds each of its names at one place only.
pub proof fn lemma_place(list: Listing, i: int)
    requires
        ascending(list),
        0 <= i < list.len(),
    ensures
        has(list, list[i].0),
        place(list, list[i].0) == i,
        as_map(list).contains_key(list[i].0),
        as_map(list)[list[i].0] == list[i].1,
{
    let j = place(list, list[i].0);
    if j < i {
        lemma_precedes_asymmetric(list[j].0, list[i].0);
    } else if i < j {
        lemma_precedes_asymmetric(list[i].0, list[j].0);
    }
}

/// A mapping has one ascending listing only.
pub proof fn lemma_listing_unique(first: Listing, second: Listing)
    requires
        ascending(first),
        ascending(second),
        as_map(first) == as_map(second),
    ensures
        first == second,
    decreases first.len(),
{
    if first.len() == 0 {
        if second.len() > 0 {
            assert(as_map(first).contains_key(second[0].0));
        }
    } else {
        // Both listings begin with the least name of the mapping.
        lemma_place(first, 0);
        assert(as_map(first).contains_key(second[0].0));
        let at = place(second, first[0].0);
        if at > 0 {
            lemma_precedes_asymmetric(second[0].0, second[at].0);
        }
        let rest_first = first.drop_first();
        let rest_second = second.drop_first();
        assert(ascending(rest_first));
        assert(ascending(rest_second));
        assert(as_map(rest_first) =~= as_map(rest_second)) by {
            lemma_remove(first, 0);
            lemma_remove(second, 0);
        }
        lemma_listing_unique(rest_first, rest_second);
        assert(second =~= seq![second[0]] + rest_second);
    }
}

/// The listing of a mapping: its profiles in ascending order of their names.
pub open spec fn sorted(profiles: Map<Seq<char>, HostConfigView>) -> Listing {
    choose|list: Listing| ascending(list) && as_map(list) == profiles
}

/// Whether a mapping can be listed, which is to say that it is finite.
pub open spec fn listable(profiles: Map<Seq<char>, HostConfigView>) -> bool {
    exists|list: Listing| ascending(list) && as_map(list) == profiles
}

/// Whether a mapping is one that a store can hold: it can be listed, and
/// each of its profiles names a host.
pub open spec fn valid_profiles(profiles: Map<Seq<char>, HostConfigView>) -> bool {
    &&& listable(profiles)
    &&& forall|name: Seq<char>| profiles.contains_key(name) ==> (#[trigger] profiles[name]).valid()
}

/// An ascending listing is the listing of its mapping.
pub proof fn lemma_sorted(list: Listing)
    requires
        ascending(list),
    ensures
        listable(as_map(list)),
        sorted(as_map(list)) == list,
{
    lemma_listing_unique(sorted(as_map(list)), list);
}

/// The listing of a mapping that can be listed holds what the mapping
/// holds.
pub proof fn lemma_sorted_holds(profiles: Map<Seq<char>, HostConfigView>)
    requires
        listable(profiles),
    ensures
        ascending(sorted(profiles)),
        as_map(sorted(profiles)) == profiles,
        valid_profiles(profiles) ==> all_valid(sorted(profiles)),
        sorted(profiles).len() == 0 <==> profiles == Map::<Seq<char>, HostConfigView>::empty(),
{
    let list = sorted(profiles);
    if valid_profiles(profiles) {
        assert forall|i: int| 0 <= i < list.len() implies (#[trigger] list[i]).1.valid() by {
            lemma_place(list, i);
        }
    }
    if list.len() > 0 {
        lemma_place(list, 0);
    } else {
        assert(as_map(list) =~= Map::<Seq<char>, HostConfigView>::empty());
    }
}

/// Putting a new name into an ascending listing, at the place that keeps it
/// ascending, inserts the name into the mapping.
pub proof fn lemma_insert(list: Listing, at: int, name: Seq<char>, config: HostConfigView)
    requires
        ascending(list),
        0 <= at <= list.len(),
        ascending(list.insert(at, (name, config))),
    ensures
        as_map(list.insert(at, (name, config))) =~= as_map(list).insert(name, config),
{
    let grown = list.insert(at, (name, config));
    lemma_place(grown, at);
    assert forall|key: Seq<char>| has(grown, key) <==> (key == name || has(list, key)) by {
        if has(list, key) {
            let i = place(list, key);
            if i < at {
                assert(grown[i].0 == key);
            } else {
                assert(grown[i + 1].0 == key);
            }
        }
    }
    assert forall|key: Seq<char>| has(grown, key) implies as_map(grown)[key] == as_map(list).insert(
        name,
        config,
    )[key] by {
        let i = place(grown, key);
        if i < at {
            lemma_place(list, i);
        } else if i > at {
            lemma_place(list, i - 1);
        }
    }
}

/// Replacing the profile at one place of an ascending listing overwrites its
/// name in the mapping.
pub proof fn lemma_update(list: Listing, at: int, config: HostConfigView)
    requires
        ascending(list),
        0 <= at < list.len(),
    ensures
        ascending(list.update(at, (list[at].0, config))),
        as_map(list.update(at, (list[at].0, config))) =~= as_map(list).insert(list[at].0, config),
{
    let name = list[at].0;
    let changed = list.update(at, (name, config));
    assert(ascending(changed));
    assert forall|key: Seq<char>| has(changed, key) <==> (key == name || has(list, key)) by {
        if has(list, key) {
            assert(changed[place(list, key)].0 == key);
        }
    }
    assert forall|key: Seq<char>| has(changed, key) implies as_map(changed)[key] == as_map(list).insert(
        name,
        config,
    )[key] by {
        lemma_place(list, place(changed, key));
        lemma_place(list, at);
    }
}

/// Taking the profile at one place out of an ascending listing removes its
/// name from the mapping.
pub proof fn lemma_remove(list: Listing, at: int)
    requires
        ascending(list),
        0 <= at < list.len(),
    ensures
        ascending(list.remove(at)),
        as_map(list.remove(at)) =~= as_map(list).remove(list[at].0),
{
    let name = list[at].0;
    let shrunk = list.remove(at);
    assert(ascending(shrunk));
    assert forall|key: Seq<char>| has(shrunk, key) <==> (key != name && has(list, key)) by {
        if has(shrunk, key) {
            let i = place(shrunk, key);
            if i < at {
                lemma_precedes_asymmetric(list[i].0, list[at].0);
            } else {
                lemma_precedes_asymmetric(list[at].0, list[i + 1].0);
            }
        }
        if key != name && has(list, key) {
            let i = place(list, key);
            if i < at {
                assert(shrunk[i].0 == key);
            } else {
                assert(shrunk[i - 1].0 == key);
            }
        }
    }
    assert forall|key: Seq<char>| has(shrunk, key) implies as_map(shrunk)[key] == as_map(list).remove(
        name,
    )[key] by {
        let i = place(shrunk, key);
        lemma_place(list, if i < at { i } else { i + 1 });
    }
}

/// A named profile.
#[derive(Debug)]
pub struct Profile {
    pub name: String,
    pub config: HostConfig,
}

/// The names and contents of a row of profiles.
pub open spec fn listing_of(entries: Seq<Profile>) -> Listing {
    Seq::new(entries.len(), |i: int| (entries[i].name@, entries[i].config@))
}

/// The stored profiles, each under its name.
#[derive(Debug)]
pub struct ProfileStore {
    entries: Vec<Profile>,
}

impl View for ProfileStore {
    type V = Map<Seq<char>, HostConfigView>;

    /// The mapping from names to profiles.
    closed spec fn view(&self) -> Map<Seq<char>, HostConfigView> {
        as_map(self.listing())
    }
}

impl ProfileStore {
    /// The profiles as the store keeps them.
    pub closed spec fn listing(&self) -> Listing {
        listing_of(self.entries@)
    }

    /// The names strictly ascend, and each profile names a host.
    #[verifier::type_invariant]
    pub closed spec fn inv(&self) -> bool {
        &&& ascending(self.listing())
        &&& forall|i: int| 0 <= i < self.entries@.len() ==> (#[trigger] self.entries@[i]).config.inv()
    }

    /// What the invariant says of the mapping: it is one that a store can
    /// hold, and the store keeps its listing.
    pub proof fn lemma_listing(self)
        requires
            self.inv(),
        ensures
            valid_profiles(self@),
            self.listing() == sorted(self@),
    {
        let list = self.listing();
        lemma_sorted(list);
        assert forall|name: Seq<char>| self@.contains_key(name) implies (#[trigger] self@[name]).valid() by {
            let i = place(list, name);
            self.entries@[i].config.lemma_valid();
        }
    }

    /// A store without profiles.
    pub fn new() -> (store: ProfileStore)
        ensures
            store@ == Map::<Seq<char>, HostConfigView>::empty(),
    {
        ProfileStore { entries: Vec::new() }
    }

    /// The number of profiles.
    pub fn len(&self) -> (n: usize)
        ensures
            n == sorted(self@).len(),
    {
        proof {
            use_type_invariant(self);
            lemma_sorted(self.listing());
        }
        self.entries.len()
    }

    /// Whether the store holds no profile.
    pub fn is_empty(&self) -> (empty: bool)
        ensures
            empty <==> self@ == Map::<Seq<char>, HostConfigView>::empty(),
    {
        proof {
            use_type_invariant(self);
            if self.entries@.len() > 0 {
                lemma_place(self.listing(), 0);
            } else {
                assert(self@ =~= Map::<Seq<char>, HostConfigView>::empty());
            }
        }
        self.entries.len() == 0
    }

    /// The place of the first profile whose name does not precede `name`,
    /// and whether that profile bears the name.
    fn locate(&self, name: &str) -> (found: (usize, bool))
        ensures
            found.0 <= self.listing().len(),
            forall|i: int| 0 <= i < found.0 ==> precedes(#[trigger] self.listing()[i].0, name@),
            forall|i: int|
                found.0 <= i < self.listing().len() && !(i == found.0 && found.1) ==> precedes(
                    name@,
                    #[trigger] self.listing()[i].0,
                ),
            found.1 ==> found.0 < self.listing().len() && self.listing()[found.0 as int].0 == name@,
            found.1 <==> has(self.listing(), name@),
    {
        proof {
            use_type_invariant(self);
        }
        let mut at: usize = 0;
        while at < self.entries.len() && text_precedes(self.entries[at].name.as_str(), name)
            invariant
                at <= self.entries@.len(),
                self.listing().len() == self.entries@.len(),
                forall|i: int| 0 <= i < at ==> precedes(#[trigger] self.listing()[i].0, name@),
            decreases self.entries@.len() - at,
        {
            at = at + 1;
        }
        let same = at < self.entries.len() && text_eq(self.entries[at].name.as_str(), name);
        proof {
            let list = self.listing();
            if at < list.len() {
                lemma_precedes_total(list[at as int].0, name@);
            }
            assert forall|i: int| at <= i < list.len() && !(i == at && same) implies precedes(
                name@,
                #[trigger] list[i].0,
            ) by {
                if i > at && !same {
                    lemma_precedes_transitive(name@, list[at as int].0, list[i].0);
                }
            }
            if has(list, name@) {
                let i = place(list, name@);
                if i < at {
                    lemma_precedes_asymmetric(list[i].0, name@);
                }
            }
        }
        (at, same)
    }

    /// Whether a profile of that name is stored.
    pub fn contains(&self, name: &str) -> (found: bool)
        ensures
            found == self@.contains_key(name@),
    {
        self.locate(name).1
    }

    /// The profile stored under a name.
    pub fn get(&self, name: &str) -> (found: Option<&HostConfig>)
        ensures
            found is Some <==> self@.contains_key(name@),
            found matches Some(config) ==> config@ == self@[name@],
    {
        let (at, same) = self.locate(name);
        if same {
            proof {
                use_type_invariant(self);
                lemma_place(self.listing(), at as int);
            }
            Some(&self.entries[at].config)
        } else {
            None
        }
    }

    /// Stores a profile under a name. A profile already stored under that
    /// name is replaced.
    pub fn insert(&mut self, name: &str, config: HostConfig)
        ensures
            final(self)@ == old(self)@.insert(name@, config@),
    {
        proof {
            use_type_invariant(&*self);
            use_type_invariant(&config);
        }
        let (at, same) = self.locate(name);
        let ghost before = self.listing();
        let ghost entry = (name@, config@);
        let mut entries: Vec<Profile> = Vec::new();
        core::mem::swap(&mut self.entries, &mut entries);
        if same {
            entries.set(at, Profile { name: String::from_str(name), config });
            proof {
                assert(listing_of(entries@) =~= before.update(at as int, entry));
                lemma_update(before, at as int, entry.1);
            }
            core::mem::swap(&mut self.entries, &mut entries);
        } else {
            entries.insert(at, Profile { name: String::from_str(name), config });
            let ghost after = before.insert(at as int, entry);
            proof {
                assert(listing_of(entries@) =~= after);
                assert(ascending(after));
                lemma_insert(before, at as int, entry.0, entry.1);
            }
            core::mem::swap(&mut self.entries, &mut entries);
        }
    }

    /// Takes the profile stored under a name out of the store.
    pub fn remove(&mut self, name: &str) -> (removed: Option<HostConfig>)
        ensures
            removed is Some <==> old(self)@.contains_key(name@),
            removed matches Some(config) ==> config@ == old(self)@[name@],
            final(self)@ == old(self)@.remove(name@),
    {
        proof {
            use_type_invariant(&*self);
        }
        let (at, same) = self.locate(name);
        let ghost before = self.listing();
        if same {
            let mut entries: Vec<Profile> = Vec::new();
            core::mem::swap(&mut self.entries, &mut entries);
            let taken = entries.remove(at);
            proof {
                assert(listing_of(entries@) =~= before.remove(at as int));
                lemma_remove(before, at as int);
                lemma_place(before, at as int);
            }
            core::mem::swap(&mut self.entries, &mut entries);
            Some(taken.config)
        } else {
            None
        }
    }

    /// Whether two stores hold the same profiles under the same names.
    pub fn same(&self, other: &ProfileStore) -> (same: bool)
        ensures
            same == (self@ == other@),
    {
        proof {
            use_type_invariant(self);
            use_type_invariant(other);
            if self@ == other@ {
                lemma_listing_unique(self.listing(), other.listing());
            }
        }
        if self.entries.len() != other.entries.len() {
            return false;
        }
        let mut at: usize = 0;
        while at < self.entries.len()
            invariant
                at <= self.entries@.len(),
                self.entries@.len() == other.entries@.len(),
                self@ == other@ ==> self.listing() == other.listing(),
                forall|i: int| 0 <= i < at ==> self.listing()[i] == other.listing()[i],
            decreases self.entries@.len() - at,
        {
            let mine = &self.entries[at];
            let theirs = &other.entries[at];
            assert(self.listing()[at as int] == (mine.name@, mine.config@));
            assert(other.listing()[at as int] == (theirs.name@, theirs.config@));
            if !text_eq(mine.name.as_str(), theirs.name.as_str()) || !mine.config.same(&theirs.config) {
                return false;
            }
            at = at + 1;
        }
        assert(self.listing() =~= other.listing());
        true
    }

    /// The name of the profile at a place of the listing.
    pub fn name_at(&self, at: usize) -> (name: &str)
        requires
            at < sorted(self@).len(),
        ensures
            name@ == sorted(self@)[at as int].0,
    {
        proof {
            use_type_invariant(self);
            lemma_sorted(self.listing());
        }
        self.entries[at].name.as_str()
    }

    /// The profile at a place of the listing.
    pub fn config_at(&self, at: usize) -> (config: &HostConfig)
        requires
            at < sorted(self@).len(),
        ensures
            config@ == sorted(self@)[at as int].1,
    {
        proof {
            use_type_invariant(self);
            lemma_sorted(self.listing());
        }
        &self.entries[at].config
    }
}

} // verus!
