use vstd::prelude::*;

verus! {

/// Equality of two string slices.
///
/// Calls `PartialEq::eq` on `str`, which std documents as comparing the two
/// strings character for character; the contract says the result is the
/// equality of the two character sequences.
#[verifier::external_body]
pub fn str_eq(a: &str, b: &str) -> (r: bool)
    ensures
        r == (a@ == b@),
{
    a == b
}

/// Whether some entry of `entries` is named `name`.
pub open spec fn has_name<V>(entries: Seq<(&'static str, V)>, name: Seq<char>) -> bool {
    exists|i: int| 0 <= i < entries.len() && (#[trigger] entries[i]).0@ == name
}

/// No two entries of `entries` share a name.
pub open spec fn names_unique<V>(entries: Seq<(&'static str, V)>) -> bool {
    forall|i: int, j: int|
        0 <= i < entries.len() && 0 <= j < entries.len() && i != j ==> (#[trigger] entries[i]).0@
            != (#[trigger] entries[j]).0@
}

/// The value stored under `name` (meaningful when `has_name(entries, name)`).
pub open spec fn value_of<V>(entries: Seq<(&'static str, V)>, name: Seq<char>) -> V {
    entries[choose|i: int| 0 <= i < entries.len() && (#[trigger] entries[i]).0@ == name].1
}

/// The entries seen as a map from names to values.
pub open spec fn as_map<V>(entries: Seq<(&'static str, V)>) -> Map<Seq<char>, V> {
    Map::new(|n: Seq<char>| has_name(entries, n), |n: Seq<char>| value_of(entries, n))
}

/// A set of values, each registered under a distinct name.
pub struct Named<V> {
    entries: Vec<(&'static str, V)>,
}

impl<V> Named<V> {
    pub closed spec fn wf(&self) -> bool {
        names_unique(self.entries@)
    }

    /// The registered values, by name.
    pub closed spec fn view_map(&self) -> Map<Seq<char>, V> {
        as_map(self.entries@)
    }

    pub fn new() -> (r: Self)
        ensures
            r.wf(),
            r.view_map() == Map::<Seq<char>, V>::empty(),
    {
        let r = Named { entries: Vec::new() };
        assert(r.view_map() =~= Map::<Seq<char>, V>::empty());
        r
    }

    /// The position of the entry named `name`, if there is one.
    fn find(&self, name: &str) -> (r: Option<usize>)
        requires
            self.wf(),
        ensures
            r is None <==> !has_name(self.entries@, name@),
            r matches Some(i) ==> i < self.entries@.len() && self.entries@[i as int].0@ == name@,
    {
        let mut i: usize = 0;
        while i < self.entries.len()
            invariant
                i <= self.entries@.len(),
                forall|j: int| 0 <= j < i ==> (#[trigger] self.entries@[j]).0@ != name@,
            decreases self.entries@.len() - i,
        {
            if str_eq(self.entries[i].0, name) {
                return Some(i);
            }
            i = i + 1;
        }
        None
    }

    /// Whether a value is registered under `name`.
    pub fn contains(&self, name: &str) -> (r: bool)
        requires
            self.wf(),
        ensures
            r == self.view_map().dom().contains(name@),
    {
        self.find(name).is_some()
    }

    /// Registers `value` under `name`, which must not be taken yet.
    pub fn insert_new(&mut self, name: &'static str, value: V)
        requires
            old(self).wf(),
            !old(self).view_map().dom().contains(name@),
        ensures
            final(self).wf(),
            final(self).view_map() == old(self).view_map().insert(name@, value),
    {
        let ghost old_entries = self.entries@;
        self.entries.push((name, value));
        let ghost new_entries = self.entries@;
        assert(new_entries.len() == old_entries.len() + 1);
        assert forall|i: int, j: int|
            0 <= i < new_entries.len() && 0 <= j < new_entries.len() && i != j implies (
            #[trigger] new_entries[i]).0@ != (#[trigger] new_entries[j]).0@ by {
            if i < old_entries.len() && j < old_entries.len() {
                assert(new_entries[i] == old_entries[i]);
                assert(new_entries[j] == old_entries[j]);
            } else if i < old_entries.len() {
                assert(new_entries[i] == old_entries[i]);
                assert(!has_name(old_entries, name@));
            } else {
                assert(new_entries[j] == old_entries[j]);
                assert(!has_name(old_entries, name@));
            }
        }
        assert forall|n: Seq<char>| #[trigger] has_name(new_entries, n) == (has_name(old_entries, n)
            || n == name@) by {
            if has_name(old_entries, n) {
                let k = choose|k: int| 0 <= k < old_entries.len() && (#[trigger] old_entries[k]).0@ == n;
                assert(new_entries[k] == old_entries[k]);
            }
            if n == name@ {
                assert(new_entries[old_entries.len() as int].0@ == n);
            }
            if has_name(new_entries, n) && n != name@ {
                let k = choose|k: int| 0 <= k < new_entries.len() && (#[trigger] new_entries[k]).0@ == n;
                assert(k < old_entries.len());
                assert(old_entries[k] == new_entries[k]);
            }
        }
        assert forall|n: Seq<char>| has_name(new_entries, n) implies #[trigger] value_of(new_entries, n)
            == (if n == name@ { value } else { value_of(old_entries, n) }) by {
            let k = choose|k: int| 0 <= k < new_entries.len() && (#[trigger] new_entries[k]).0@ == n;
            if n == name@ {
                assert(new_entries[old_entries.len() as int].0@ == n);
                assert(k == old_entries.len());
            } else {
                let k2 = choose|k: int| 0 <= k < old_entries.len() && (#[trigger] old_entries[k]).0@ == n;
                assert(new_entries[k2] == old_entries[k2]);
                assert(k == k2);
            }
        }
        assert(as_map(new_entries) =~= as_map(old_entries).insert(name@, value));
    }

    /// Registers `value` under `name`, replacing the value registered there before, if
    /// any.
    pub fn insert(&mut self, name: &'static str, value: V)
        requires
            old(self).wf(),
        ensures
            final(self).wf(),
            final(self).view_map() == old(self).view_map().insert(name@, value),
    {
        match self.find(name) {
            None => self.insert_new(name, value),
            Some(i) => {
                let ghost old_entries = self.entries@;
                self.entries.set(i, (name, value));
                let ghost new_entries = self.entries@;
                assert forall|a: int, b: int|
                    0 <= a < new_entries.len() && 0 <= b < new_entries.len() && a != b implies (
                    #[trigger] new_entries[a]).0@ != (#[trigger] new_entries[b]).0@ by {
                    assert(old_entries[a].0@ != old_entries[b].0@);
                }
                assert forall|n: Seq<char>| #[trigger] has_name(new_entries, n) == has_name(old_entries, n) by {
                    if has_name(old_entries, n) {
                        let k = choose|k: int| 0 <= k < old_entries.len() && (#[trigger] old_entries[k]).0@ == n;
                        assert(new_entries[k].0@ == n);
                    }
                    if has_name(new_entries, n) {
                        let k = choose|k: int| 0 <= k < new_entries.len() && (#[trigger] new_entries[k]).0@ == n;
                        assert(old_entries[k].0@ == n);
                    }
                }
                assert forall|n: Seq<char>| has_name(new_entries, n) implies #[trigger] value_of(new_entries, n)
                    == (if n == name@ { value } else { value_of(old_entries, n) }) by {
                    let k = choose|k: int| 0 <= k < new_entries.len() && (#[trigger] new_entries[k]).0@ == n;
                    if n == name@ {
                        assert(new_entries[i as int].0@ == n);
                        assert(k == i);
                    } else {
                        let k2 = choose|k: int| 0 <= k < old_entries.len() && (#[trigger] old_entries[k]).0@ == n;
                        assert(k2 != i);
                        assert(new_entries[k2] == old_entries[k2]);
                        assert(k == k2);
                    }
                }
                assert(as_map(new_entries) =~= as_map(old_entries).insert(name@, value));
            },
        }
    }

    /// The value registered under `name`, which must exist.
    pub fn get(&self, name: &str) -> (r: &V)
        requires
            self.wf(),
            self.view_map().dom().contains(name@),
        ensures
            *r == self.view_map()[name@],
    {
        let i = self.find(name);
        let i = i.unwrap();
        proof {
            let k = choose|k: int| 0 <= k < self.entries@.len() && (#[trigger] self.entries@[k]).0@ == name@;
            assert(k == i);
        }
        &self.entries[i].1
    }
}

} // verus!
