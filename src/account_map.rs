use vstd::prelude::*;

verus! {

/// The mapping that a list of entries describes: each entry binds its account
/// to its value, a later entry overriding an earlier one for the same account.
pub open spec fn map_of<T>(entries: Seq<(String, T)>) -> Map<Seq<char>, T>
    decreases entries.len(),
{
    if entries.len() == 0 {
        Map::empty()
    } else {
        map_of(entries.drop_last()).insert(entries.last().0@, entries.last().1)
    }
}

/// `i` is the last entry that names `k`.
pub open spec fn last_entry_of<T>(entries: Seq<(String, T)>, k: Seq<char>, i: int) -> bool {
    &&& 0 <= i < entries.len()
    &&& entries[i].0@ == k
    &&& forall|j: int| i < j < entries.len() ==> #[trigger] entries[j].0@ != k
}

proof fn lemma_map_of_absent<T>(entries: Seq<(String, T)>, k: Seq<char>)
    requires
        forall|j: int| 0 <= j < entries.len() ==> #[trigger] entries[j].0@ != k,
    ensures
        !map_of(entries).contains_key(k),
    decreases entries.len(),
{
    if entries.len() > 0 {
        let prefix = entries.drop_last();
        assert forall|j: int| 0 <= j < prefix.len() implies #[trigger] prefix[j].0@ != k by {
            assert(prefix[j] == entries[j]);
        }
        lemma_map_of_absent(prefix, k);
        assert(entries[entries.len() - 1].0@ != k);
    }
}

proof fn lemma_map_of_last<T>(entries: Seq<(String, T)>, k: Seq<char>, i: int)
    requires
        last_entry_of(entries, k, i),
    ensures
        map_of(entries).contains_key(k),
        map_of(entries)[k] == entries[i].1,
    decreases entries.len(),
{
    if i < entries.len() - 1 {
        let prefix = entries.drop_last();
        assert(entries[entries.len() - 1].0@ != k);
        assert forall|j: int| i < j < prefix.len() implies #[trigger] prefix[j].0@ != k by {
            assert(prefix[j] == entries[j]);
        }
        lemma_map_of_last(prefix, k, i);
    }
}

proof fn lemma_map_of_update<T>(entries: Seq<(String, T)>, i: int, key: String, v: T)
    requires
        last_entry_of(entries, key@, i),
    ensures
        map_of(entries.update(i, (key, v))) == map_of(entries).insert(key@, v),
    decreases entries.len(),
{
    let updated = entries.update(i, (key, v));
    let prefix = entries.drop_last();
    if i == entries.len() - 1 {
        assert(updated.drop_last() =~= prefix);
        assert(map_of(updated) =~= map_of(entries).insert(key@, v));
    } else {
        assert(updated.drop_last() =~= prefix.update(i, (key, v)));
        assert(entries[entries.len() - 1].0@ != key@);
        assert forall|j: int| i < j < prefix.len() implies #[trigger] prefix[j].0@ != key@ by {
            assert(prefix[j] == entries[j]);
        }
        lemma_map_of_update(prefix, i, key, v);
        assert(map_of(updated) =~= map_of(entries).insert(key@, v));
    }
}

/// A mapping from account to a value, held as a list of entries. A write
/// updates the last entry of its account in place, and adds an entry only
/// for an account that has none.
#[derive(Debug)]
pub struct AccountMap<T> {
    entries: Vec<(String, T)>,
}

impl<T> View for AccountMap<T> {
    type V = Map<Seq<char>, T>;

    closed spec fn view(&self) -> Map<Seq<char>, T> {
        map_of(self.entries@)
    }
}

impl<T: Copy> AccountMap<T> {
    /// A mapping with no account in it.
    pub fn new() -> (r: Self)
        ensures
            r@ == Map::<Seq<char>, T>::empty(),
    {
        AccountMap { entries: Vec::new() }
    }

    /// Where the last entry of `who` stands, if it has one.
    fn position(&self, who: &String) -> (r: Option<usize>)
        ensures
            match r {
                Some(i) => last_entry_of(self.entries@, who@, i as int),
                None => forall|j: int|
                    0 <= j < self.entries.len() ==> #[trigger] self.entries@[j].0@ != who@,
            },
    {
        let mut i: usize = self.entries.len();
        while i > 0
            invariant
                i <= self.entries.len(),
                forall|j: int| i <= j < self.entries.len() ==> #[trigger] self.entries@[j].0@ != who@,
            decreases i,
        {
            i = i - 1;
            if self.entries[i].0 == *who {
                return Some(i);
            }
        }
        None
    }

    /// The value bound to `who`, or `None` where `who` has none.
    pub fn get(&self, who: &String) -> (r: Option<T>)
        ensures
            r == (if self@.contains_key(who@) {
                Some(self@[who@])
            } else {
                None::<T>
            }),
    {
        match self.position(who) {
            Some(i) => {
                proof {
                    lemma_map_of_last(self.entries@, who@, i as int);
                }
                Some(self.entries[i].1)
            },
            None => {
                proof {
                    lemma_map_of_absent(self.entries@, who@);
                }
                None
            },
        }
    }

    /// Binds `who` to `value`, replacing what it was bound to.
    pub fn insert(&mut self, who: &String, value: T)
        ensures
            final(self)@ == old(self)@.insert(who@, value),
    {
        let key = who.clone();
        match self.position(who) {
            Some(i) => {
                proof {
                    lemma_map_of_update(self.entries@, i as int, key, value);
                }
                self.entries.set(i, (key, value));
            },
            None => {
                proof {
                    assert(self.entries@.push((key, value)).drop_last() =~= self.entries@);
                }
                self.entries.push((key, value));
            },
        }
    }
}

} // verus!
