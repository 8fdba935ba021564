//! A table of assets keyed by name. Entries keep the order in which their
//! names were first inserted, so walking the table gives the same sequence
//! every time.

use vstd::hash_map::StringHashMap;
use vstd::prelude::*;

verus! {

/// Assets of one kind, each stored under a name.
///
/// The table is a map from names to values ([`View`]) together with the
/// order in which the names arrived ([`NameTable::order`]).
pub struct NameTable<V> {
    index: StringHashMap<usize>,
    names: Vec<String>,
    values: Vec<V>,
}

impl<V> View for NameTable<V> {
    type V = Map<Seq<char>, V>;

    closed spec fn view(&self) -> Map<Seq<char>, V> {
        Map::new(
            |k: Seq<char>| self.index@.contains_key(k),
            |k: Seq<char>| self.values[self.index@[k] as int],
        )
    }
}

impl<V> NameTable<V> {
    /// The invariant of the table: every name has one slot, and every slot
    /// one name.
    pub closed spec fn wf(&self) -> bool {
        &&& self.names.len() == self.values.len()
        &&& forall|i: int|
            #![trigger self.names[i]]
            0 <= i < self.names.len() ==> self.index@.contains_key(self.names[i]@)
                && self.index@[self.names[i]@] == i
        &&& forall|k: Seq<char>| #[trigger]
            self.index@.contains_key(k) ==> self.index@[k] < self.names.len()
                && self.names[self.index@[k] as int]@ == k
    }

    /// The names of the table, in the order of their first insertion.
    pub closed spec fn order(&self) -> Seq<Seq<char>> {
        Seq::new(self.names.len() as nat, |i: int| self.names[i]@)
    }

    /// The names in [`NameTable::order`] are exactly the keys of the map,
    /// each listed once.
    pub proof fn lemma_order(&self)
        requires
            self.wf(),
        ensures
            forall|k: Seq<char>| self@.contains_key(k) <==> self.order().contains(k),
            forall|i: int, j: int|
                0 <= i < j < self.order().len() ==> self.order()[i] != self.order()[j],
    {
        assert forall|k: Seq<char>| self@.contains_key(k) <==> self.order().contains(k) by {
            if self@.contains_key(k) {
                assert(self.order()[self.index@[k] as int] == k);
            }
            if self.order().contains(k) {
                let i = choose|i: int| 0 <= i < self.order().len() && self.order()[i] == k;
                assert(self.names[i]@ == k);
            }
        }
        assert forall|i: int, j: int| 0 <= i < j < self.order().len() implies self.order()[i]
            != self.order()[j] by {
            assert(self.names[i]@ == self.order()[i]);
            assert(self.names[j]@ == self.order()[j]);
        }
    }

    /// A table without entries.
    pub fn new() -> (table: Self)
        ensures
            table.wf(),
            table@ == Map::<Seq<char>, V>::empty(),
            table.order() == Seq::<Seq<char>>::empty(),
    {
        let table = NameTable { index: StringHashMap::new(), names: Vec::new(), values: Vec::new() };
        assert(table@ =~= Map::<Seq<char>, V>::empty());
        assert(table.order() =~= Seq::<Seq<char>>::empty());
        table
    }

    /// The number of names in the table.
    pub fn len(&self) -> (n: usize)
        requires
            self.wf(),
        ensures
            n == self.order().len(),
    {
        self.names.len()
    }

    /// Whether a value is stored under `name`.
    pub fn contains(&self, name: &str) -> (found: bool)
        requires
            self.wf(),
        ensures
            found == self@.contains_key(name@),
    {
        self.index.contains_key(name)
    }

    /// The value stored under `name`, if there is one.
    pub fn get(&self, name: &str) -> (value: Option<&V>)
        requires
            self.wf(),
        ensures
            match value {
                Some(v) => self@.contains_key(name@) && *v == self@[name@],
                None => !self@.contains_key(name@),
            },
    {
        match self.index.get(name) {
            Some(slot) => Some(&self.values[*slot]),
            None => None,
        }
    }

    /// The value stored under `name`, if there is one, for changing in
    /// place. Whatever the caller leaves there is what the table then holds
    /// under `name`; nothing else changes.
    pub fn get_mut(&mut self, name: &str) -> (value: Option<&mut V>)
        requires
            old(self).wf(),
        ensures
            match value {
                Some(v) => {
                    &&& old(self)@.contains_key(name@)
                    &&& *v == old(self)@[name@]
                    &&& final(self)@ == old(self)@.insert(name@, *final(v))
                    &&& final(self).order() == old(self).order()
                    &&& final(self).wf()
                },
                None => !old(self)@.contains_key(name@) && *final(self) == *old(self),
            },
    {
        let found = match self.index.get(name) {
            Some(slot) => Some(*slot),
            None => None,
        };
        match found {
            Some(slot) => Some(&mut self.values[slot]),
            None => None,
        }
    }

    /// Stores `value` under `name`. A value already stored there is
    /// replaced, and the name keeps its place; a new name goes to the end.
    pub fn insert(&mut self, name: &str, value: V)
        requires
            old(self).wf(),
        ensures
            final(self).wf(),
            final(self)@ == old(self)@.insert(name@, value),
            final(self).order() == if old(self)@.contains_key(name@) {
                old(self).order()
            } else {
                old(self).order().push(name@)
            },
    {
        let found = match self.index.get(name) {
            Some(slot) => Some(*slot),
            None => None,
        };
        match found {
            Some(slot) => {
                self.values.set(slot, value);
            },
            None => {
                let slot = self.names.len();
                self.index.insert(name.to_owned(), slot);
                self.names.push(name.to_owned());
                self.values.push(value);
            },
        }
        assert(self@ =~= old(self)@.insert(name@, value));
        assert(self.order() =~= if old(self)@.contains_key(name@) {
            old(self).order()
        } else {
            old(self).order().push(name@)
        });
    }

    /// Stores `value` under `name` unless the name is taken, and says
    /// whether it did.
    pub fn insert_if_absent(&mut self, name: &str, value: V) -> (inserted: bool)
        requires
            old(self).wf(),
        ensures
            final(self).wf(),
            inserted == !old(self)@.contains_key(name@),
            inserted ==> final(self)@ == old(self)@.insert(name@, value) && final(self).order()
                == old(self).order().push(name@),
            !inserted ==> final(self)@ == old(self)@ && final(self).order() == old(self).order(),
    {
        if self.index.contains_key(name) {
            false
        } else {
            self.insert(name, value);
            true
        }
    }

    /// The values of the table, in the order of their names.
    pub fn values(&self) -> (all: Vec<&V>)
        requires
            self.wf(),
        ensures
            all.len() == self.order().len(),
            forall|i: int| 0 <= i < all.len() ==> *all[i] == self@[self.order()[i]],
    {
        let mut all: Vec<&V> = Vec::new();
        let mut i: usize = 0;
        while i < self.values.len()
            invariant
                self.wf(),
                i <= self.values.len(),
                all.len() == i,
                forall|j: int| 0 <= j < i ==> *all[j] == self.values[j],
            decreases self.values.len() - i,
        {
            all.push(&self.values[i]);
            i += 1;
        }
        assert forall|j: int| 0 <= j < all.len() implies *all[j] == self@[self.order()[j]] by {
            assert(self.names[j]@ == self.order()[j]);
        }
        all
    }
}

} // verus!
