//! The vault: the ordered collection of entries of one identity, and the
//! states it passes through between being locked and being open.

use vstd::prelude::*;
use crate::entry::{Entry, EntryView};
use crate::views::bytes_view;

verus! {

/// What a locked vault is waiting for.
#[derive(Debug, Clone, PartialEq, Eq)]
pub enum Locked {
    /// A background load is under way.
    Loading,
    /// The last load failed; selecting the identity again starts another.
    Failed,
    /// The encrypted bytes were read and wait for a passphrase.
    Sealed(Vec<u8>),
    /// Stored bytes are being parsed. Where they were encrypted, the
    /// encrypted bytes are kept for another attempt.
    Parsing(Option<Vec<u8>>),
}

/// State of the vault of a session.
#[derive(Debug, Clone, PartialEq, Eq)]
pub enum State {
    /// No identity is selected.
    PendingUser,
    /// An identity is selected and its vault is not open yet.
    AwaitingUnlock(Locked),
    /// The vault is open.
    Secrets(Vec<Entry>),
}

/// Mathematical value of a [`Locked`].
pub enum LockedView {
    Loading,
    Failed,
    Sealed(Seq<u8>),
    Parsing(Option<Seq<u8>>),
}

/// Mathematical value of a [`State`].
pub enum StateView {
    PendingUser,
    AwaitingUnlock(LockedView),
    Secrets(Seq<EntryView>),
}

impl View for Locked {
    type V = LockedView;

    open spec fn view(&self) -> LockedView {
        match self {
            Locked::Loading => LockedView::Loading,
            Locked::Failed => LockedView::Failed,
            Locked::Sealed(blob) => LockedView::Sealed(blob@),
            Locked::Parsing(kept) => LockedView::Parsing(bytes_view(*kept)),
        }
    }
}

impl View for State {
    type V = StateView;

    open spec fn view(&self) -> StateView {
        match self {
            State::PendingUser => StateView::PendingUser,
            State::AwaitingUnlock(locked) => StateView::AwaitingUnlock(locked@),
            State::Secrets(items) => StateView::Secrets(entries_view(items@)),
        }
    }
}

/// The values of a run of entries, in order.
pub open spec fn entries_view(items: Seq<Entry>) -> Seq<EntryView> {
    items.map_values(|e: Entry| e@)
}

/// The identifiers of a run of entries, in order.
pub open spec fn ids_of(entries: Seq<EntryView>) -> Seq<u64> {
    entries.map_values(|e: EntryView| e.id)
}

/// An identifier that a new entry can take: the least one not in use.
pub open spec fn is_fresh_id(ids: Seq<u64>, id: u64) -> bool {
    &&& !ids.contains(id)
    &&& forall|j: u64| j < id ==> ids.contains(j)
}

/// The identifier that the next entry takes.
pub open spec fn least_free_id(ids: Seq<u64>) -> u64 {
    choose|id: u64| is_fresh_id(ids, id)
}

/// At most one identifier is the least one not in use.
pub proof fn lemma_fresh_id_unique(ids: Seq<u64>, a: u64, b: u64)
    requires
        is_fresh_id(ids, a),
        is_fresh_id(ids, b),
    ensures
        a == b,
        least_free_id(ids) == a,
{
    if a < b {
        assert(ids.contains(a));
    }
    if b < a {
        assert(ids.contains(b));
    }
    let c = least_free_id(ids);
    if c < a {
        assert(ids.contains(c));
    }
    if a < c {
        assert(ids.contains(a));
    }
}

/// A run of entries with two of its positions exchanged.
pub open spec fn swapped(entries: Seq<EntryView>, i: int, j: int) -> Seq<EntryView>
    recommends
        0 <= i < entries.len(),
        0 <= j < entries.len(),
{
    entries.update(i, entries[j]).update(j, entries[i])
}

/// A run of entries after the one at `entry` was asked to move one place up
/// or down. The first does not move up, the last does not move down, and a
/// position beyond the end moves nothing.
pub open spec fn moved(entries: Seq<EntryView>, entry: usize, up: bool) -> Seq<EntryView> {
    if up {
        if 0 < entry < entries.len() {
            swapped(entries, entry as int, entry - 1)
        } else {
            entries
        }
    } else {
        if entry + 1 < entries.len() {
            swapped(entries, entry as int, entry + 1)
        } else {
            entries
        }
    }
}

/// A run of entries without the one at `index`, or unchanged where there is
/// none at `index`.
pub open spec fn without(entries: Seq<EntryView>, index: usize) -> Seq<EntryView> {
    if index < entries.len() {
        entries.remove(index as int)
    } else {
        entries
    }
}

impl StateView {
    /// The entries that can be shown: those of an open vault, else none.
    pub open spec fn entries(self) -> Seq<EntryView> {
        match self {
            StateView::Secrets(entries) => entries,
            _ => Seq::empty(),
        }
    }

    /// No two entries share an identifier.
    pub open spec fn wf(self) -> bool {
        ids_of(self.entries()).no_duplicates()
    }
}

/// `<[T]>::swap` of std exchanges two elements. It panics on a position out
/// of bounds, so both must be within.
pub assume_specification<T>[ <[T]>::swap ](slice: &mut [T], a: usize, b: usize)
    requires
        a < old(slice)@.len(),
        b < old(slice)@.len(),
    ensures
        final(slice)@ == old(slice)@.update(a as int, old(slice)@[b as int]).update(
            b as int,
            old(slice)@[a as int],
        ),
;

/// Exchanging two positions keeps every identifier as often as it was.
pub proof fn lemma_swapped_keeps_ids(entries: Seq<EntryView>, i: int, j: int)
    requires
        0 <= i < entries.len(),
        0 <= j < entries.len(),
    ensures
        ids_of(swapped(entries, i, j)).to_multiset() == ids_of(entries).to_multiset(),
        ids_of(entries).no_duplicates() ==> ids_of(swapped(entries, i, j)).no_duplicates(),
{
    let ids = ids_of(entries);
    let after = ids_of(swapped(entries, i, j));
    assert(after =~= ids.update(i, ids[j]).update(j, ids[i]));
    if i == j {
        assert(after =~= ids);
    } else {
        broadcast use vstd::multiset::group_multiset_axioms;

        vstd::seq_lib::to_multiset_update(ids, i, ids[j]);
        vstd::seq_lib::to_multiset_update(ids.update(i, ids[j]), j, ids[i]);
        vstd::seq_lib::to_multiset_contains(ids, ids[i]);
        vstd::seq_lib::to_multiset_contains(ids, ids[j]);
        assert(after.to_multiset() =~= ids.to_multiset());
    }
    if ids.no_duplicates() {
        assert forall|a: int, b: int| 0 <= a < after.len() && 0 <= b < after.len() && a != b implies after[a]
            != after[b] by {
            let pa = if a == i { j } else if a == j { i } else { a };
            let pb = if b == i { j } else if b == j { i } else { b };
            assert(after[a] == ids[pa]);
            assert(after[b] == ids[pb]);
            assert(pa != pb);
        }
    }
}

/// Moving an entry up or down keeps every identifier as often as it was.
pub proof fn lemma_moved_keeps_ids(entries: Seq<EntryView>, entry: usize, up: bool)
    ensures
        ids_of(moved(entries, entry, up)).to_multiset() == ids_of(entries).to_multiset(),
        moved(entries, entry, up).len() == entries.len(),
        ids_of(entries).no_duplicates() ==> ids_of(moved(entries, entry, up)).no_duplicates(),
        up && entry == 0 ==> moved(entries, entry, up) == entries,
        !up && entry + 1 >= entries.len() ==> moved(entries, entry, up) == entries,
{
    if up {
        if 0 < entry < entries.len() {
            lemma_swapped_keeps_ids(entries, entry as int, entry - 1);
        }
    } else {
        if entry + 1 < entries.len() {
            lemma_swapped_keeps_ids(entries, entry as int, entry + 1);
        }
    }
}

/// Removing an entry leaves the identifiers of the others distinct.
pub proof fn lemma_without_keeps_distinct(entries: Seq<EntryView>, index: usize)
    requires
        ids_of(entries).no_duplicates(),
    ensures
        ids_of(without(entries, index)).no_duplicates(),
{
    if index < entries.len() {
        let ids = ids_of(entries);
        let after = ids_of(without(entries, index));
        assert(after =~= ids.remove(index as int));
    }
}

/// A run of identifiers that holds every number below `c` has at least `c`
/// members.
pub proof fn lemma_prefix_bounded(ids: Seq<u64>, c: nat)
    requires
        c <= u64::MAX + 1,
        forall|j: u64| j < c ==> ids.contains(j),
    ensures
        c <= ids.len(),
    decreases c,
{
    if c > 0 {
        let top = (c - 1) as u64;
        assert(ids.contains(top));
        let k = choose|k: int| 0 <= k < ids.len() && ids[k] == top;
        let rest = ids.remove(k);
        assert forall|j: u64| j < c - 1 implies rest.contains(j) by {
            assert(ids.contains(j));
            let m = choose|m: int| 0 <= m < ids.len() && ids[m] == j;
            assert(m != k);
            if m < k {
                assert(rest[m] == j);
            } else {
                assert(rest[m - 1] == j);
            }
        }
        lemma_prefix_bounded(rest, (c - 1) as nat);
    }
}

/// A run of identifiers that does not exhaust the numbers has a least
/// one that is free.
pub proof fn lemma_fresh_id_exists(ids: Seq<u64>)
    requires
        ids.len() <= u64::MAX,
    ensures
        is_fresh_id(ids, least_free_id(ids)),
{
    lemma_find_fresh(ids, 0);
}

proof fn lemma_find_fresh(ids: Seq<u64>, from: nat)
    requires
        ids.len() <= u64::MAX,
        from <= ids.len(),
        forall|j: u64| j < from ==> ids.contains(j),
    ensures
        is_fresh_id(ids, least_free_id(ids)),
    decreases ids.len() - from,
{
    if ids.contains(from as u64) {
        lemma_prefix_bounded(ids, from + 1);
        lemma_find_fresh(ids, from + 1);
    } else {
        assert(is_fresh_id(ids, from as u64));
    }
}

fn id_in_use(items: &Vec<Entry>, id: u64) -> (used: bool)
    ensures
        used == ids_of(entries_view(items@)).contains(id),
{
    let ghost ids = ids_of(entries_view(items@));
    let mut i: usize = 0;
    while i < items.len()
        invariant
            i <= items.len(),
            ids == ids_of(entries_view(items@)),
            forall|k: int| 0 <= k < i ==> ids[k] != id,
        decreases items.len() - i,
    {
        if items[i].id == id {
            assert(ids[i as int] == id);
            return true;
        }
        i = i + 1;
    }
    false
}

/// Whether no two entries share an identifier.
pub fn has_distinct_ids(items: &Vec<Entry>) -> (distinct: bool)
    ensures
        distinct == ids_of(entries_view(items@)).no_duplicates(),
{
    let ghost ids = ids_of(entries_view(items@));
    let mut i: usize = 0;
    while i < items.len()
        invariant
            i <= items.len(),
            ids == ids_of(entries_view(items@)),
            forall|a: int, b: int| 0 <= a < b < i ==> ids[a] != ids[b],
        decreases items.len() - i,
    {
        let mut j: usize = 0;
        while j < i
            invariant
                j <= i < items.len(),
                ids == ids_of(entries_view(items@)),
                forall|a: int| 0 <= a < j ==> ids[a] != ids[i as int],
            decreases i - j,
        {
            if items[j].id == items[i].id {
                assert(ids[j as int] == ids[i as int]);
                return false;
            }
            j = j + 1;
        }
        i = i + 1;
    }
    assert forall|a: int, b: int| 0 <= a < ids.len() && 0 <= b < ids.len() && a != b implies ids[a] != ids[b] by {
        if a < b {
            assert(ids[a] != ids[b]);
        } else {
            assert(ids[b] != ids[a]);
        }
    }
    true
}

/// The least identifier that no entry uses.
pub fn fresh_id(items: &Vec<Entry>) -> (id: u64)
    ensures
        is_fresh_id(ids_of(entries_view(items@)), id),
        id == least_free_id(ids_of(entries_view(items@))),
{
    let ghost ids = ids_of(entries_view(items@));
    let mut candidate: u64 = 0;
    loop
        invariant
            ids == ids_of(entries_view(items@)),
            forall|j: u64| j < candidate ==> ids.contains(j),
            candidate <= items.len(),
        decreases items.len() - candidate,
    {
        if !id_in_use(items, candidate) {
            proof {
                lemma_fresh_id_unique(ids, candidate, candidate);
            }
            return candidate;
        }
        proof {
            lemma_prefix_bounded(ids, (candidate + 1) as nat);
        }
        candidate = candidate + 1;
    }
}

impl State {
    /// The entries of an open vault; none while it is not open.
    pub fn as_array(&self) -> (items: &[Entry])
        ensures
            entries_view(items@) == self@.entries(),
    {
        match self {
            State::Secrets(items) => items.as_slice(),
            _ => {
                let none: &[Entry] = &[];
                assert(entries_view(none@) =~= Seq::<EntryView>::empty());
                none
            },
        }
    }

    /// The entries of an open vault, to be changed in place; none while it
    /// is not open.
    pub fn as_mut_array(&mut self) -> (items: &mut [Entry])
        ensures
            entries_view(items@) == old(self)@.entries(),
            final(self)@ == match old(self)@ {
                StateView::Secrets(_) => StateView::Secrets(entries_view(final(items)@)),
                other => other,
            },
    {
        match self {
            State::Secrets(items) => items.as_mut_slice(),
            _ => {
                let none: &mut [Entry] = &mut [];
                assert(entries_view(none@) =~= Seq::<EntryView>::empty());
                none
            },
        }
    }

    /// Number of entries that can be shown.
    pub fn len(&self) -> (n: usize)
        ensures
            n == self@.entries().len(),
    {
        match self {
            State::Secrets(items) => items.len(),
            _ => 0,
        }
    }

    /// Whether the vault is open.
    pub fn is_unlocked(&self) -> (b: bool)
        ensures
            b == (self@ is Secrets),
    {
        match self {
            State::Secrets(_) => true,
            _ => false,
        }
    }

    /// Adds an entry at the end of an open vault, under the least
    /// identifier that is free. A vault that is not open hands it back.
    pub fn try_push(&mut self, entry: Entry) -> (r: Result<(), Entry>)
        ensures
            match old(self)@ {
                StateView::Secrets(entries) => {
                    &&& r is Ok
                    &&& final(self)@ matches StateView::Secrets(after)
                    &&& after == entries.push(EntryView { id: least_free_id(ids_of(entries)), ..entry@ })
                    &&& is_fresh_id(ids_of(entries), least_free_id(ids_of(entries)))
                },
                _ => {
                    &&& r matches Err(back)
                    &&& back@ == entry@
                    &&& final(self)@ == old(self)@
                },
            },
            old(self)@.wf() ==> final(self)@.wf(),
    {
        match self {
            State::Secrets(items) => {
                let ghost before = entries_view(items@);
                let ghost given = entry@;
                let id = fresh_id(items);
                let mut entry = entry;
                entry.id = id;
                let ghost added = entry@;
                items.push(entry);
                proof {
                    let after = entries_view(items@);
                    assert(added == (EntryView { id, ..given }));
                    assert(after =~= before.push(added));
                    assert(ids_of(after) =~= ids_of(before).push(id));
                    if ids_of(before).no_duplicates() {
                        assert(ids_of(after).no_duplicates());
                    }
                }
                Ok(())
            },
            _ => Err(entry),
        }
    }

    /// Removes the entry at `index` from an open vault and says whether
    /// there was one.
    pub fn delete(&mut self, index: usize) -> (removed: bool)
        ensures
            removed == (index < old(self)@.entries().len()),
            final(self)@ == match old(self)@ {
                StateView::Secrets(entries) => StateView::Secrets(without(entries, index)),
                other => other,
            },
            old(self)@.wf() ==> final(self)@.wf(),
    {
        match self {
            State::Secrets(items) => {
                if index < items.len() {
                    let ghost before = entries_view(items@);
                    items.remove(index);
                    proof {
                        assert(entries_view(items@) =~= before.remove(index as int));
                        if ids_of(before).no_duplicates() {
                            lemma_without_keeps_distinct(before, index);
                        }
                    }
                    true
                } else {
                    false
                }
            },
            _ => false,
        }
    }

    /// Moves the entry at `entry` one place up or down in an open vault and
    /// says whether anything moved. The identifiers stay what they were,
    /// each as often as before.
    pub fn move_entry(&mut self, entry: usize, up: bool) -> (did_move: bool)
        ensures
            final(self)@ == match old(self)@ {
                StateView::Secrets(entries) => StateView::Secrets(moved(entries, entry, up)),
                other => other,
            },
            did_move == if up {
                0 < entry < old(self)@.entries().len()
            } else {
                entry + 1 < old(self)@.entries().len()
            },
            ids_of(final(self)@.entries()).to_multiset() == ids_of(old(self)@.entries()).to_multiset(),
            old(self)@.wf() ==> final(self)@.wf(),
    {
        proof {
            lemma_moved_keeps_ids(self@.entries(), entry, up);
        }
        match self {
            State::Secrets(items) => {
                let len = items.len();
                if up && entry == 0 {
                    return false;
                }
                if entry >= len {
                    return false;
                }
                let next = if up {
                    entry - 1
                } else {
                    entry + 1
                };
                if next >= len {
                    return false;
                }
                let ghost before = entries_view(items@);
                items.swap(entry, next);
                proof {
                    assert(entries_view(items@) =~= swapped(before, entry as int, next as int));
                }
                true
            },
            _ => false,
        }
    }
}

} // verus!
