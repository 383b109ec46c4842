//! Operations on the name-keyed collections of [`ProfilesState`]: the
//! resolved-profile cache and the directory of discoverable profile names.
//!
//! Both are association vectors with unique keys; the lemmas here connect
//! the executable operations (find, remove, overwrite-insert) to the `Map`
//! abstraction used by all contracts.

use vstd::prelude::*;
use vstd::pervasive::VecAdditionalExecFns;

use crate::appstate::{
    name_entries_map, profiles_map, unique_entry_names, unique_profile_names, Profile,
    ProfileNameEntry, ProfileView, ProfilesState,
};

verus! {

/// Dropping the last element keeps the cache names unique.
pub proof fn lemma_unique_profile_names_drop_last(s: Seq<Profile>)
    requires
        unique_profile_names(s),
        s.len() > 0,
    ensures
        unique_profile_names(s.drop_last()),
{
    assert forall|i: int, j: int|
        0 <= i < j < s.drop_last().len() implies (#[trigger] s.drop_last()[i]).name@
        != (#[trigger] s.drop_last()[j]).name@ by {
        assert(s[i].name@ != s[j].name@);
    }
}

/// A cached profile is in the map abstraction, under its name, at its view.
pub proof fn lemma_profiles_map_index(s: Seq<Profile>, i: int)
    requires
        unique_profile_names(s),
        0 <= i < s.len(),
    ensures
        profiles_map(s).contains_key(s[i].name@),
        profiles_map(s)[s[i].name@] == s[i]@,
    decreases s.len(),
{
    if i == s.len() - 1 {
    } else {
        lemma_unique_profile_names_drop_last(s);
        lemma_profiles_map_index(s.drop_last(), i);
        assert(s.drop_last()[i] == s[i]);
        assert(s.last().name@ != s[i].name@);
    }
}

/// A name that no cached profile bears is not in the map abstraction.
pub proof fn lemma_profiles_map_absent(s: Seq<Profile>, k: Seq<char>)
    requires
        forall|i: int| 0 <= i < s.len() ==> (#[trigger] s[i]).name@ != k,
    ensures
        !profiles_map(s).contains_key(k),
    decreases s.len(),
{
    if s.len() > 0 {
        lemma_profiles_map_absent(s.drop_last(), k);
    }
}

/// Removing the cached profile at index `i` removes exactly its name from
/// the map abstraction, and keeps the names unique.
pub proof fn lemma_profiles_map_remove(s: Seq<Profile>, i: int)
    requires
        unique_profile_names(s),
        0 <= i < s.len(),
    ensures
        unique_profile_names(s.remove(i)),
        profiles_map(s.remove(i)) == profiles_map(s).remove(s[i].name@),
    decreases s.len(),
{
    let k = s[i].name@;
    s.remove_ensures(i);
    assert forall|a: int, b: int|
        0 <= a < b < s.remove(i).len() implies (#[trigger] s.remove(i)[a]).name@
        != (#[trigger] s.remove(i)[b]).name@ by {
        let a0: int = if a < i { a } else { a + 1 };
        let b0: int = if b < i { b } else { b + 1 };
        assert(s[a0].name@ != s[b0].name@);
    }
    lemma_unique_profile_names_drop_last(s);
    if i == s.len() - 1 {
        assert(s.remove(i) =~= s.drop_last());
        assert forall|j: int|
            0 <= j < s.drop_last().len() implies (#[trigger] s.drop_last()[j]).name@ != k by {
            assert(s[j].name@ != s[i].name@);
        }
        lemma_profiles_map_absent(s.drop_last(), k);
        assert(profiles_map(s.drop_last()) =~= profiles_map(s).remove(k));
    } else {
        let dl = s.drop_last();
        let last = s.last();
        lemma_profiles_map_remove(dl, i);
        assert(dl[i] == s[i]);
        assert(s.remove(i).len() == s.len() - 1);
        assert(s.remove(i).last() == last);
        assert(s.remove(i).drop_last() =~= dl.remove(i));
        assert(profiles_map(s.remove(i)) == profiles_map(dl.remove(i)).insert(
            last.name@,
            last@,
        ));
        assert(last.name@ != k);
        assert(profiles_map(dl).remove(k).insert(last.name@, last@) =~= profiles_map(dl).insert(
            last.name@,
            last@,
        ).remove(k));
    }
}

/// Overwriting the cached profile at index `i` with a profile of the same
/// name updates exactly its map entry, and keeps the names unique.
pub proof fn lemma_profiles_map_update(s: Seq<Profile>, i: int, p: Profile)
    requires
        unique_profile_names(s),
        0 <= i < s.len(),
        p.name@ == s[i].name@,
    ensures
        unique_profile_names(s.update(i, p)),
        profiles_map(s.update(i, p)) == profiles_map(s).insert(p.name@, p@),
    decreases s.len(),
{
    let k = s[i].name@;
    assert forall|a: int, b: int|
        0 <= a < b < s.update(i, p).len() implies (#[trigger] s.update(i, p)[a]).name@
        != (#[trigger] s.update(i, p)[b]).name@ by {
        assert(s[a].name@ != s[b].name@);
    }
    lemma_unique_profile_names_drop_last(s);
    if i == s.len() - 1 {
        assert(s.update(i, p).drop_last() =~= s.drop_last());
        assert(s.update(i, p).last() == p);
        assert(profiles_map(s.drop_last()).insert(k, s.last()@).insert(p.name@, p@)
            =~= profiles_map(s.drop_last()).insert(p.name@, p@));
    } else {
        let dl = s.drop_last();
        let last = s.last();
        lemma_profiles_map_update(dl, i, p);
        assert(dl[i] == s[i]);
        assert(s.update(i, p).drop_last() =~= dl.update(i, p));
        assert(s.update(i, p).last() == last);
        assert(profiles_map(s.update(i, p)) == profiles_map(dl.update(i, p)).insert(
            last.name@,
            last@,
        ));
        assert(last.name@ != k);
        assert(profiles_map(dl).insert(k, p@).insert(last.name@, last@) =~= profiles_map(
            dl,
        ).insert(last.name@, last@).insert(k, p@));
    }
}

/// Appending a profile with a fresh name inserts exactly its map entry, and
/// keeps the names unique.
pub proof fn lemma_profiles_map_push(s: Seq<Profile>, p: Profile)
    requires
        unique_profile_names(s),
        forall|i: int| 0 <= i < s.len() ==> (#[trigger] s[i]).name@ != p.name@,
    ensures
        unique_profile_names(s.push(p)),
        profiles_map(s.push(p)) == profiles_map(s).insert(p.name@, p@),
{
    assert forall|a: int, b: int|
        0 <= a < b < s.push(p).len() implies (#[trigger] s.push(p)[a]).name@
        != (#[trigger] s.push(p)[b]).name@ by {
        if b == s.len() {
            assert(s.push(p)[a] == s[a]);
        } else {
            assert(s[a].name@ != s[b].name@);
        }
    }
    assert(s.push(p).drop_last() =~= s);
    assert(s.push(p).last() == p);
}

/// Dropping the last element keeps the directory names unique.
pub proof fn lemma_unique_entry_names_drop_last(s: Seq<ProfileNameEntry>)
    requires
        unique_entry_names(s),
        s.len() > 0,
    ensures
        unique_entry_names(s.drop_last()),
{
    assert forall|i: int, j: int|
        0 <= i < j < s.drop_last().len() implies (#[trigger] s.drop_last()[i]).name@
        != (#[trigger] s.drop_last()[j]).name@ by {
        assert(s[i].name@ != s[j].name@);
    }
}

/// Overwriting the directory entry at index `i` with one of the same name
/// updates exactly its map entry, and keeps the names unique.
pub proof fn lemma_name_entries_map_update(s: Seq<ProfileNameEntry>, i: int, e: ProfileNameEntry)
    requires
        unique_entry_names(s),
        0 <= i < s.len(),
        e.name@ == s[i].name@,
    ensures
        unique_entry_names(s.update(i, e)),
        name_entries_map(s.update(i, e)) == name_entries_map(s).insert(e.name@, e.source),
    decreases s.len(),
{
    let k = s[i].name@;
    assert forall|a: int, b: int|
        0 <= a < b < s.update(i, e).len() implies (#[trigger] s.update(i, e)[a]).name@
        != (#[trigger] s.update(i, e)[b]).name@ by {
        assert(s[a].name@ != s[b].name@);
    }
    lemma_unique_entry_names_drop_last(s);
    if i == s.len() - 1 {
        assert(s.update(i, e).drop_last() =~= s.drop_last());
        assert(s.update(i, e).last() == e);
        assert(name_entries_map(s.drop_last()).insert(k, s.last().source).insert(
            e.name@,
            e.source,
        ) =~= name_entries_map(s.drop_last()).insert(e.name@, e.source));
    } else {
        let dl = s.drop_last();
        let last = s.last();
        lemma_name_entries_map_update(dl, i, e);
        assert(dl[i] == s[i]);
        assert(s.update(i, e).drop_last() =~= dl.update(i, e));
        assert(s.update(i, e).last() == last);
        assert(last.name@ != k);
        assert(name_entries_map(dl).insert(k, e.source).insert(last.name@, last.source)
            =~= name_entries_map(dl).insert(last.name@, last.source).insert(k, e.source));
    }
}

/// Appending a directory entry with a fresh name inserts exactly its map
/// entry, and keeps the names unique.
pub proof fn lemma_name_entries_map_push(s: Seq<ProfileNameEntry>, e: ProfileNameEntry)
    requires
        unique_entry_names(s),
        forall|i: int| 0 <= i < s.len() ==> (#[trigger] s[i]).name@ != e.name@,
    ensures
        unique_entry_names(s.push(e)),
        name_entries_map(s.push(e)) == name_entries_map(s).insert(e.name@, e.source),
{
    assert forall|a: int, b: int|
        0 <= a < b < s.push(e).len() implies (#[trigger] s.push(e)[a]).name@
        != (#[trigger] s.push(e)[b]).name@ by {
        if b == s.len() {
            assert(s.push(e)[a] == s[a]);
        } else {
            assert(s[a].name@ != s[b].name@);
        }
    }
    assert(s.push(e).drop_last() =~= s);
    assert(s.push(e).last() == e);
}

impl ProfilesState {
    /// The index of the cached profile with the given name, if any.
    pub fn find_profile(&self, name: &String) -> (r: Option<usize>)
        ensures
            match r {
                Some(i) => i < self.profiles@.len() && self.profiles@[i as int].name@ == name@,
                None => forall|i: int|
                    0 <= i < self.profiles@.len() ==> (#[trigger] self.profiles@[i]).name@
                        != name@,
            },
    {
        let mut i: usize = 0;
        while i < self.profiles.len()
            invariant
                i <= self.profiles@.len(),
                forall|j: int| 0 <= j < i ==> (#[trigger] self.profiles@[j]).name@ != name@,
            decreases self.profiles@.len() - i,
        {
            if self.profiles[i].name == *name {
                return Some(i);
            }
            i = i + 1;
        }
        None
    }

    /// Remove and return the cached profile with the given name, if any.
    pub fn remove_profile(&mut self, name: &String) -> (r: Option<Profile>)
        requires
            old(self).wf(),
        ensures
            final(self).wf(),
            final(self).profile_names == old(self).profile_names,
            match r {
                Some(p) => {
                    &&& old(self)@.profiles.contains_key(name@)
                    &&& p@ == old(self)@.profiles[name@]
                    &&& p.name@ == name@
                    &&& final(self)@.profiles == old(self)@.profiles.remove(name@)
                },
                None => {
                    &&& !old(self)@.profiles.contains_key(name@)
                    &&& final(self)@.profiles == old(self)@.profiles
                },
            },
    {
        match self.find_profile(name) {
            Some(i) => {
                proof {
                    lemma_profiles_map_index(self.profiles@, i as int);
                    lemma_profiles_map_remove(self.profiles@, i as int);
                }
                let p = self.profiles.remove(i);
                Some(p)
            },
            None => {
                proof {
                    lemma_profiles_map_absent(self.profiles@, name@);
                }
                None
            },
        }
    }

    /// Insert a resolved profile into the cache, replacing any previous
    /// entry of the same name.
    pub fn insert_profile(&mut self, p: Profile)
        requires
            old(self).wf(),
        ensures
            final(self).wf(),
            final(self).profile_names == old(self).profile_names,
            final(self)@.profiles == old(self)@.profiles.insert(p.name@, p@),
    {
        match self.find_profile(&p.name) {
            Some(i) => {
                proof {
                    lemma_profiles_map_update(self.profiles@, i as int, p);
                }
                self.profiles.set(i, p);
            },
            None => {
                proof {
                    lemma_profiles_map_push(self.profiles@, p);
                }
                self.profiles.push(p);
            },
        }
    }

    /// Whether the cache holds a healthy profile of the given name.
    pub fn has_healthy_profile(&self, name: &String) -> (r: bool)
        requires
            self.wf(),
        ensures
            r == (self@.profiles.contains_key(name@) && self@.profiles[name@].is_healthy()),
    {
        match self.find_profile(name) {
            Some(i) => {
                proof {
                    lemma_profiles_map_index(self.profiles@, i as int);
                }
                self.profiles[i].err_message.as_str().is_empty()
            },
            None => {
                proof {
                    lemma_profiles_map_absent(self.profiles@, name@);
                }
                false
            },
        }
    }

    /// Insert a discovered name into the directory, replacing any previous
    /// entry of the same name.
    pub fn insert_name_entry(&mut self, e: ProfileNameEntry)
        requires
            old(self).wf(),
        ensures
            final(self).wf(),
            final(self).profiles == old(self).profiles,
            final(self)@.profile_names == old(self)@.profile_names.insert(e.name@, e.source),
    {
        let mut i: usize = 0;
        let n = self.profile_names.len();
        while i < n
            invariant
                n == self.profile_names@.len(),
                i <= n,
                forall|j: int| 0 <= j < i ==> (#[trigger] self.profile_names@[j]).name@ != e.name@,
                old(self) == self,
                self.wf(),
            decreases n - i,
        {
            if self.profile_names[i].name == e.name {
                proof {
                    lemma_name_entries_map_update(self.profile_names@, i as int, e);
                }
                self.profile_names.set(i, e);
                return ;
            }
            i = i + 1;
        }
        proof {
            lemma_name_entries_map_push(self.profile_names@, e);
        }
        self.profile_names.push(e);
    }
}

} // verus!
