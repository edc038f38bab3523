//! The residents of a store as a sequence, the most recently used one first, and what
//! an access and a store do to that sequence.

use vstd::prelude::*;

verus! {

/// One resident of the store: a secret's id, its value, and the instant at which it
/// goes stale.
pub struct Resident {
    pub id: Seq<char>,
    pub value: Seq<char>,
    pub expires_at: u128,
}

/// Whether a resident has the id `id`.
pub open spec fn holds(entries: Seq<Resident>, id: Seq<char>) -> bool {
    exists|at: int| 0 <= at < entries.len() && entries[at].id == id
}

/// The place of a resident with the id `id`, where there is one.
pub open spec fn position(entries: Seq<Resident>, id: Seq<char>) -> int {
    choose|at: int| 0 <= at < entries.len() && entries[at].id == id
}

/// The resident with the id `id`, or `None` where there is none.
pub open spec fn lookup(entries: Seq<Resident>, id: Seq<char>) -> Option<Resident> {
    if holds(entries, id) {
        Some(entries[position(entries, id)])
    } else {
        None
    }
}

/// Whether no id is resident twice.
pub open spec fn distinct(entries: Seq<Resident>) -> bool {
    forall|i: int, j: int| 0 <= i < j < entries.len() ==> entries[i].id != entries[j].id
}

/// The residents after an access of `id`: its resident, where there is one, has moved
/// to the front, and the others keep their order.
pub open spec fn touched(entries: Seq<Resident>, id: Seq<char>) -> Seq<Resident> {
    if holds(entries, id) {
        let at = position(entries, id);
        seq![entries[at]] + entries.remove(at)
    } else {
        entries
    }
}

/// The id that leaves a store of at most `capacity` residents when `id` is stored:
/// the one at the back, the least recently used, where `id` is new and the store is
/// full; otherwise none.
pub open spec fn evicted(entries: Seq<Resident>, capacity: usize, id: Seq<char>) -> Option<
    Seq<char>,
> {
    if !holds(entries, id) && entries.len() == capacity {
        Some(entries.last().id)
    } else {
        None
    }
}

/// The residents after `entry` has been stored in a store that keeps at most
/// `capacity`: `entry` stands at the front. It has replaced the resident of the same
/// id, where there was one. Where there was none and the store was full, the
/// resident at the back, the least recently used one, has left.
pub open spec fn stored(entries: Seq<Resident>, capacity: usize, entry: Resident) -> Seq<
    Resident,
> {
    if holds(entries, entry.id) {
        seq![entry] + entries.remove(position(entries, entry.id))
    } else if entries.len() == capacity {
        seq![entry] + entries.drop_last()
    } else {
        seq![entry] + entries
    }
}

/// Among residents with distinct ids, the place of an id is the one place where it
/// stands.
pub proof fn lemma_position_is_unique(entries: Seq<Resident>, at: int)
    requires
        distinct(entries),
        0 <= at < entries.len(),
    ensures
        holds(entries, entries[at].id),
        position(entries, entries[at].id) == at,
        lookup(entries, entries[at].id) == Some(entries[at]),
{
    let found = position(entries, entries[at].id);
    assert(found == at) by {
        assert(entries[found].id == entries[at].id);
    }
}

/// An access keeps the residents and changes only their order: the number of
/// residents, the distinctness of their ids and what is found under each id stay,
/// and the resident accessed stands at the front.
pub proof fn lemma_touched(entries: Seq<Resident>, id: Seq<char>)
    requires
        distinct(entries),
    ensures
        touched(entries, id).len() == entries.len(),
        distinct(touched(entries, id)),
        forall|other: Seq<char>| lookup(touched(entries, id), other) == lookup(entries, other),
        holds(entries, id) ==> touched(entries, id)[0] == entries[position(entries, id)],
{
    let after = touched(entries, id);
    if holds(entries, id) {
        let at = position(entries, id);
        // The place in `entries` of the resident that stands at `k` in `after`.
        let origin = |k: int| if k == 0 { at } else if k <= at { k - 1 } else { k };
        assert forall|k: int| 0 <= k < after.len() implies after[k] == entries[origin(k)] by {}
        assert forall|i: int, j: int| 0 <= i < j < after.len() implies after[i].id
            != after[j].id by {
            assert(origin(i) != origin(j));
        }
        assert forall|other: Seq<char>| lookup(after, other) == lookup(entries, other) by {
            if holds(entries, other) {
                let p = position(entries, other);
                let q = if p == at { 0 } else if p < at { p + 1 } else { p };
                assert(origin(q) == p);
                lemma_position_is_unique(after, q);
            } else if holds(after, other) {
                assert(entries[origin(position(after, other))].id == other);
            }
        }
    }
}

/// A store puts its entry at the front and keeps the store within its capacity and
/// its ids distinct. The entry is found under its id. Every other id keeps its
/// resident, but for the evicted one, which is gone.
pub proof fn lemma_stored(entries: Seq<Resident>, capacity: usize, entry: Resident)
    requires
        distinct(entries),
        entries.len() <= capacity,
        capacity >= 1,
    ensures
        stored(entries, capacity, entry).len() <= capacity,
        stored(entries, capacity, entry).len() == if holds(entries, entry.id) || entries.len()
            == capacity {
            entries.len()
        } else {
            entries.len() + 1
        },
        distinct(stored(entries, capacity, entry)),
        stored(entries, capacity, entry)[0] == entry,
        lookup(stored(entries, capacity, entry), entry.id) == Some(entry),
        forall|other: Seq<char>|
            other != entry.id ==> lookup(stored(entries, capacity, entry), other) == if evicted(
                entries,
                capacity,
                entry.id,
            ) == Some(other) {
                None
            } else {
                lookup(entries, other)
            },
{
    let after = stored(entries, capacity, entry);
    // The place in `entries` that is given up, or the length where none is.
    let gone: int = if holds(entries, entry.id) {
        position(entries, entry.id)
    } else if entries.len() == capacity {
        entries.len() - 1
    } else {
        entries.len() as int
    };
    // The place in `entries` of the resident that stands at `k >= 1` in `after`.
    let origin = |k: int| if k - 1 < gone { k - 1 } else { k };
    assert forall|k: int| 1 <= k < after.len() implies after[k] == entries[origin(k)]
        && after[k].id != entry.id by {}
    assert forall|i: int, j: int| 0 <= i < j < after.len() implies after[i].id != after[j].id by {
        assert(after[j] == entries[origin(j)]);
        if i > 0 {
            assert(origin(i) < origin(j));
        }
    }
    lemma_position_is_unique(after, 0);
    assert forall|other: Seq<char>| other != entry.id implies lookup(after, other) == if evicted(
        entries,
        capacity,
        entry.id,
    ) == Some(other) {
        None
    } else {
        lookup(entries, other)
    } by {
        if holds(after, other) {
            lemma_position_is_unique(entries, origin(position(after, other)));
        } else if holds(entries, other) {
            let p = position(entries, other);
            if p != gone {
                let q = if p < gone { p + 1 } else { p };
                assert(after[q].id == other);
            }
        }
    }
}

} // verus!
