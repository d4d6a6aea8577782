//! The day store: the records of the current day, shelved by probe, against
//! which a new record is compared before it is kept.

use vstd::prelude::*;
use crate::clock::{day_number, day_of, now};
use crate::models::RfData;

verus! {

/// The mathematical value of one shelf: a probe's identifier and its records,
/// oldest first.
pub type Shelf<T> = (Seq<char>, Seq<T>);

/// The views of a vector of shelves.
pub open spec fn shelves<T>(local: Seq<(String, Vec<T>)>) -> Seq<Shelf<T>> {
    local.map_values(|s: (String, Vec<T>)| (s.0@, s.1@))
}

/// The records on the first shelf of the probe `id`, if it has a shelf.
pub open spec fn records<T>(all: Seq<Shelf<T>>, id: Seq<char>) -> Option<Seq<T>>
    decreases all.len(),
{
    if all.len() == 0 {
        None
    } else if all[0].0 == id {
        Some(all[0].1)
    } else {
        records(all.skip(1), id)
    }
}

/// The shelves after storing `data` for the probe `id`: at the end of the
/// probe's shelf, or on a new shelf behind the others.
pub open spec fn stored<T>(all: Seq<Shelf<T>>, id: Seq<char>, data: T) -> Seq<Shelf<T>>
    decreases all.len(),
{
    if all.len() == 0 {
        seq![(id, seq![data])]
    } else if all[0].0 == id {
        seq![(id, all[0].1.push(data))] + all.skip(1)
    } else {
        seq![all[0]] + stored(all.skip(1), id, data)
    }
}

/// The shelves after storing each record of `base`, in order, starting from
/// none.
pub open spec fn filled<T: RfData>(base: Seq<T>) -> Seq<Shelf<T>>
    decreases base.len(),
{
    if base.len() == 0 {
        Seq::empty()
    } else {
        stored(filled(base.drop_last()), base.last().id(), base.last())
    }
}

/// The records of a shelf that fall on the day `day`.
pub open spec fn of_day<T: RfData>(on_shelf: Seq<T>, day: i32) -> Seq<T> {
    on_shelf.filter(|d: T| day_of(d.date()) == day)
}

/// The shelves with only the records that fall on the day `day`. A shelf stays
/// even when none of its records does.
pub open spec fn kept<T: RfData>(all: Seq<Shelf<T>>, day: i32) -> Seq<Shelf<T>> {
    all.map_values(|s: Shelf<T>| (s.0, of_day(s.1, day)))
}

/// Whether `data` is worth keeping: its probe has no record yet, or its values
/// differ from those of the probe's latest record.
pub open spec fn is_new<T: RfData>(all: Seq<Shelf<T>>, data: T) -> bool {
    match records(all, data.id()) {
        None => true,
        Some(on_shelf) => on_shelf.len() == 0 || data.differs(&on_shelf.last()),
    }
}

/// The records kept in memory, shelved by probe.
pub struct Store<T> {
    local: Vec<(String, Vec<T>)>,
}

impl<T> View for Store<T> {
    type V = Seq<Shelf<T>>;

    closed spec fn view(&self) -> Seq<Shelf<T>> {
        shelves(self.local@)
    }
}

impl<T: RfData> Store<T> {
    /// The index of the first shelf of the probe `id`.
    fn position(&self, id: &String) -> (r: Option<usize>)
        ensures
            match r {
                Some(i) => i < self.local.len() && self@[i as int].0 == id@ && forall|j: int|
                    0 <= j < i ==> (#[trigger] self@[j]).0 != id@,
                None => forall|j: int| 0 <= j < self@.len() ==> (#[trigger] self@[j]).0 != id@,
            },
    {
        let mut i: usize = 0;
        while i < self.local.len()
            invariant
                i <= self.local.len(),
                forall|j: int| 0 <= j < i ==> (#[trigger] self@[j]).0 != id@,
            decreases self.local.len() - i,
        {
            if self.local[i].0 == *id {
                return Some(i);
            }
            i += 1;
        }
        None
    }

    /// A store filled with the records of `base_data`, in order.
    pub fn init(base_data: Vec<T>) -> (store: Store<T>)
        ensures
            store@ == filled(base_data@),
    {
        let mut store = Store { local: Vec::new() };
        let ghost all = base_data@;
        for data in it: base_data
            invariant
                it.seq() == all,
                store@ == filled(all.take(it.index() as int)),
        {
            proof {
                let next = all.take(it.index() + 1);
                assert(next.drop_last() == all.take(it.index() as int));
            }
            store.insert(data);
        }
        assert(all.take(all.len() as int) == all);
        store
    }

    /// Drops the records that do not fall on the current day.
    pub fn clean(&mut self)
        ensures
            exists|day: i32| final(self)@ == kept(old(self)@, day),
    {
        let today = day_number(&now());
        self.retain_day(today);
    }

    /// Drops the records that do not fall on the day `day`.
    pub fn retain_day(&mut self, day: i32)
        ensures
            final(self)@ == kept(old(self)@, day),
    {
        let ghost before = self@;
        let mut old_local: Vec<(String, Vec<T>)> = Vec::new();
        std::mem::swap(&mut self.local, &mut old_local);
        let ghost all = old_local@;
        for shelf in it: old_local
            invariant
                it.seq() == all,
                shelves(all) == before,
                self@ == kept(before.take(it.index() as int), day),
        {
            let (id, on_shelf) = shelf;
            let ghost records_before = on_shelf@;
            let mut on_day: Vec<T> = Vec::new();
            for data in inner: on_shelf
                invariant
                    inner.seq() == records_before,
                    on_day@ == of_day(records_before.take(inner.index() as int), day),
            {
                proof {
                    reveal(Seq::filter);
                    let next = records_before.take(inner.index() + 1);
                    assert(next.drop_last() == records_before.take(inner.index() as int));
                }
                if day_number(&data.get_date()) == day {
                    on_day.push(data);
                }
            }
            proof {
                assert(records_before.take(records_before.len() as int) == records_before);
                let next = before.take(it.index() + 1);
                let seen = before.take(it.index() as int);
                assert(kept(next, day) == kept(seen, day).push((id@, on_day@)));
            }
            self.local.push((id, on_day));
        }
    }

    pub fn is_new_value(&self, n_data: &T) -> (b: bool)
        ensures
            b == is_new(self@, *n_data),
    {
        let id = n_data.get_id();
        match self.position(&id) {
            None => {
                proof {
                    lemma_records_absent(self@, id@);
                }
                true
            },
            Some(i) => {
                proof {
                    lemma_records_found(self@, id@, i as int);
                }
                let on_shelf = &self.local[i].1;
                if on_shelf.len() == 0 {
                    true
                } else {
                    n_data.values_is_diff(&on_shelf[on_shelf.len() - 1])
                }
            },
        }
    }

    pub fn insert(&mut self, data: T)
        ensures
            final(self)@ == stored(old(self)@, data.id(), data),
    {
        let id = data.get_id();
        let ghost before = self@;
        match self.position(&id) {
            Some(i) => {
                proof {
                    lemma_stored_found(before, id@, data, i as int);
                }
                self.local[i].1.push(data);
            },
            None => {
                proof {
                    lemma_stored_new(before, id@, data);
                }
                let mut on_shelf: Vec<T> = Vec::new();
                on_shelf.push(data);
                self.local.push((id, on_shelf));
            },
        }
    }

    /// The records of the probe `id`, oldest first, if it has a shelf.
    pub fn get(&self, id: &str) -> (r: Option<&Vec<T>>)
        ensures
            match r {
                Some(on_shelf) => records(self@, id@) == Some(on_shelf@),
                None => records(self@, id@) is None,
            },
    {
        let key = id.to_owned();
        match self.position(&key) {
            None => {
                proof {
                    lemma_records_absent(self@, id@);
                }
                None
            },
            Some(i) => {
                proof {
                    lemma_records_found(self@, id@, i as int);
                }
                Some(&self.local[i].1)
            },
        }
    }
}

/// The first shelf of the probe `id` is the one whose records `records` gives.
pub proof fn lemma_records_found<T>(all: Seq<Shelf<T>>, id: Seq<char>, i: int)
    requires
        0 <= i < all.len(),
        all[i].0 == id,
        forall|j: int| 0 <= j < i ==> (#[trigger] all[j]).0 != id,
    ensures
        records(all, id) == Some(all[i].1),
    decreases all.len(),
{
    if i > 0 {
        let rest = all.skip(1);
        assert forall|j: int| 0 <= j < i - 1 implies (#[trigger] rest[j]).0 != id by {}
        lemma_records_found(rest, id, i - 1);
    }
}

/// A probe without a shelf has no records.
pub proof fn lemma_records_absent<T>(all: Seq<Shelf<T>>, id: Seq<char>)
    requires
        forall|j: int| 0 <= j < all.len() ==> (#[trigger] all[j]).0 != id,
    ensures
        records(all, id) is None,
    decreases all.len(),
{
    if all.len() > 0 {
        let rest = all.skip(1);
        assert forall|j: int| 0 <= j < rest.len() implies (#[trigger] rest[j]).0 != id by {}
        lemma_records_absent(rest, id);
    }
}

/// Storing a record for a probe whose first shelf is at index `i` lengthens
/// that shelf and changes nothing else.
pub proof fn lemma_stored_found<T>(all: Seq<Shelf<T>>, id: Seq<char>, data: T, i: int)
    requires
        0 <= i < all.len(),
        all[i].0 == id,
        forall|j: int| 0 <= j < i ==> (#[trigger] all[j]).0 != id,
    ensures
        stored(all, id, data) == all.update(i, (id, all[i].1.push(data))),
    decreases all.len(),
{
    if i > 0 {
        let rest = all.skip(1);
        assert forall|j: int| 0 <= j < i - 1 implies (#[trigger] rest[j]).0 != id by {}
        lemma_stored_found(rest, id, data, i - 1);
    }
}

/// Storing a record for a probe without a shelf adds a shelf behind the
/// others, with that record alone on it.
pub proof fn lemma_stored_new<T>(all: Seq<Shelf<T>>, id: Seq<char>, data: T)
    requires
        forall|j: int| 0 <= j < all.len() ==> (#[trigger] all[j]).0 != id,
    ensures
        stored(all, id, data) == all.push((id, seq![data])),
    decreases all.len(),
{
    if all.len() > 0 {
        let rest = all.skip(1);
        assert forall|j: int| 0 <= j < rest.len() implies (#[trigger] rest[j]).0 != id by {}
        lemma_stored_new(rest, id, data);
    }
}

/// Storing a record lengthens the shelf of its probe, or gives the probe its
/// first shelf, and leaves the shelves of the other probes as they were.
pub proof fn lemma_stored_records<T>(all: Seq<Shelf<T>>, id: Seq<char>, data: T, key: Seq<char>)
    ensures
        records(stored(all, id, data), key) == if key == id {
            Some(
                match records(all, id) {
                    Some(on_shelf) => on_shelf.push(data),
                    None => seq![data],
                },
            )
        } else {
            records(all, key)
        },
    decreases all.len(),
{
    let after = stored(all, id, data);
    if all.len() == 0 {
        assert(records(after.skip(1), key) is None);
    } else if all[0].0 == id {
        assert(after.skip(1) == all.skip(1));
    } else {
        lemma_stored_records(all.skip(1), id, data, key);
        assert(after.skip(1) == stored(all.skip(1), id, data));
    }
}

/// The records of `base` that belong to the probe `id`, in order.
pub open spec fn of_probe<T: RfData>(base: Seq<T>, id: Seq<char>) -> Seq<T> {
    base.filter(|d: T| d.id() == id)
}

/// A store filled from a list shelves the records by probe: the shelf of a
/// probe holds the probe's records in the order of the list, and a probe
/// without a record has no shelf.
pub proof fn law_filled_shelves_by_probe<T: RfData>(base: Seq<T>, id: Seq<char>)
    ensures
        records(filled(base), id) == if of_probe(base, id).len() == 0 {
            None
        } else {
            Some(of_probe(base, id))
        },
    decreases base.len(),
{
    reveal(Seq::filter);
    if base.len() > 0 {
        law_filled_shelves_by_probe(base.drop_last(), id);
        lemma_stored_records(filled(base.drop_last()), base.last().id(), base.last(), id);
    }
}

} // verus!
