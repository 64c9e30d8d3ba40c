use vstd::prelude::*;
use crate::events::{views, DaemonEvent, EventView};
use crate::ordering::{first_n, sort_by_stamp_desc, sort_desc, lemma_sort_map, Stamped};
use crate::text::str_eq;

verus! {

impl Stamped for DaemonEvent {
    open spec fn stamp_of(&self) -> u64 {
        self.updated_at
    }

    fn stamp(&self) -> (r: u64) {
        self.updated_at
    }
}

/// The position of the first event of `s` with the given id, or the length
/// of `s` when there is none.
pub open spec fn index_of_id(s: Seq<EventView>, id: Seq<char>) -> nat
    decreases s.len(),
{
    if s.len() == 0 {
        0
    } else if s[0].id == id {
        0
    } else {
        1 + index_of_id(s.drop_first(), id)
    }
}

/// The first event of `s` with the given id.
pub open spec fn find_spec(s: Seq<EventView>, id: Seq<char>) -> Option<EventView> {
    let i = index_of_id(s, id);
    if i < s.len() {
        Some(s[i as int])
    } else {
        None
    }
}

/// `s` with `e` in place of its first event of the same id, or `e` added at
/// the end when no event has that id.
pub open spec fn upserted(s: Seq<EventView>, e: EventView) -> Seq<EventView> {
    let i = index_of_id(s, e.id);
    if i < s.len() {
        s.update(i as int, e)
    } else {
        s.push(e)
    }
}

/// `s` without the events of the given id, the others in their order.
pub open spec fn without_id(s: Seq<EventView>, id: Seq<char>) -> Seq<EventView>
    decreases s.len(),
{
    if s.len() == 0 {
        Seq::empty()
    } else if s.last().id == id {
        without_id(s.drop_last(), id)
    } else {
        without_id(s.drop_last(), id).push(s.last())
    }
}

pub proof fn lemma_index_of_id(s: Seq<EventView>, id: Seq<char>)
    ensures
        index_of_id(s, id) <= s.len(),
        forall|j: int| 0 <= j < index_of_id(s, id) ==> (#[trigger] s[j]).id != id,
        index_of_id(s, id) < s.len() ==> s[index_of_id(s, id) as int].id == id,
    decreases s.len(),
{
    if s.len() > 0 && s[0].id != id {
        let t = s.drop_first();
        lemma_index_of_id(t, id);
        assert forall|j: int| 0 <= j < index_of_id(s, id) implies (#[trigger] s[j]).id != id by {
            if j > 0 {
                assert(s[j] == t[j - 1]);
            }
        }
    }
}

proof fn lemma_index_unique(s: Seq<EventView>, id: Seq<char>, p: int)
    requires
        0 <= p <= s.len(),
        forall|j: int| 0 <= j < p ==> (#[trigger] s[j]).id != id,
        p < s.len() ==> s[p].id == id,
    ensures
        index_of_id(s, id) == p,
{
    lemma_index_of_id(s, id);
    let i = index_of_id(s, id) as int;
    if i < p {
        assert(s[i].id != id);
    } else if p < i {
        assert(s[p].id != id);
    }
}

proof fn lemma_without_id_len(s: Seq<EventView>, id: Seq<char>)
    ensures
        without_id(s, id).len() <= s.len(),
        without_id(s, id).len() == s.len() <==> (forall|j: int| 0 <= j < s.len() ==> (#[trigger] s[j]).id != id),
    decreases s.len(),
{
    if s.len() > 0 {
        let t = s.drop_last();
        lemma_without_id_len(t, id);
        assert forall|j: int| 0 <= j < t.len() implies t[j] == s[j] by {}
        if without_id(s, id).len() == s.len() {
            assert forall|j: int| 0 <= j < s.len() implies (#[trigger] s[j]).id != id by {
                if j < t.len() {
                    assert(t[j] == s[j]);
                }
            }
        }
    }
}

/// The location of the event store, one JSON event per line.
pub struct EventStore {
    path: String,
}

impl EventStore {
    pub fn new(path: &str) -> (r: Self)
        ensures
            r.path_view() == path@,
    {
        EventStore { path: path.to_owned() }
    }

    pub closed spec fn path_view(&self) -> Seq<char> {
        self.path@
    }

    /// Where the events are kept.
    pub fn path(&self) -> (r: &str)
        ensures
            r@ == self.path_view(),
    {
        self.path.as_str()
    }

    /// Puts `event` in place of the first stored event of the same id, or
    /// adds it at the end: what appending to the store does to its events.
    pub fn merge(events: &mut Vec<DaemonEvent>, event: DaemonEvent)
        ensures
            views(final(events)@) == upserted(views(old(events)@), event@),
    {
        let ghost before = views(events@);
        let mut i: usize = 0;
        while i < events.len() && !(events[i].id == event.id)
            invariant
                i <= events@.len(),
                before == views(events@),
                events@ == old(events)@,
                forall|j: int| 0 <= j < i ==> (#[trigger] before[j]).id != event@.id,
            decreases events@.len() - i,
        {
            proof {
                assert(before[i as int] == events@[i as int]@);
            }
            i = i + 1;
        }
        proof {
            if i < events@.len() {
                assert(before[i as int] == events@[i as int]@);
            }
            lemma_index_unique(before, event@.id, i as int);
        }
        if i < events.len() {
            events.set(i, event);
        } else {
            events.push(event);
        }
        proof {
            assert(views(events@) =~= upserted(before, event@));
        }
    }

    /// The first of `events` with the given id, taken out of the list.
    pub fn take_by_id(events: Vec<DaemonEvent>, id: &str) -> (r: Option<DaemonEvent>)
        ensures
            match r {
                Some(e) => find_spec(views(events@), id@) == Some(e@),
                None => find_spec(views(events@), id@) is None,
            },
    {
        let ghost vs = views(events@);
        let mut events = events;
        let mut i: usize = 0;
        while i < events.len() && !str_eq(events[i].id.as_str(), id)
            invariant
                i <= events@.len(),
                vs == views(events@),
                forall|j: int| 0 <= j < i ==> (#[trigger] vs[j]).id != id@,
            decreases events@.len() - i,
        {
            proof {
                assert(vs[i as int] == events@[i as int]@);
            }
            i = i + 1;
        }
        proof {
            if i < events@.len() {
                assert(vs[i as int] == events@[i as int]@);
            }
            lemma_index_unique(vs, id@, i as int);
        }
        if i < events.len() {
            Some(events.swap_remove(i))
        } else {
            None
        }
    }

    /// The `limit` most recently updated events, most recent first, events
    /// updated at the same time in their stored order.
    pub fn most_recent(events: Vec<DaemonEvent>, limit: usize) -> (r: Vec<DaemonEvent>)
        ensures
            views(r@) == first_n(sort_desc(views(events@), |v: EventView| v.updated_at), limit as nat),
    {
        let ghost all = events@;
        let mut sorted = sort_by_stamp_desc(events);
        proof {
            lemma_sort_map(
                all,
                |x: DaemonEvent| x.stamp_of(),
                |e: DaemonEvent| e@,
                |v: EventView| v.updated_at,
            );
        }
        let ghost full = sorted@;
        sorted.truncate(limit);
        proof {
            assert(views(sorted@) =~= first_n(views(full), limit as nat));
        }
        sorted
    }

    /// Removes every event with the given id, keeping the others in order;
    /// true when at least one was removed.
    pub fn remove_by_id(events: &mut Vec<DaemonEvent>, id: &str) -> (removed: bool)
        ensures
            views(final(events)@) == without_id(views(old(events)@), id@),
            removed == (exists|j: int| 0 <= j < old(events)@.len() && (#[trigger] old(events)@[j]).id@ == id@),
    {
        let ghost before = views(events@);
        let initial_len = events.len();
        let mut rest: Vec<DaemonEvent> = Vec::new();
        std::mem::swap(&mut rest, events);
        let mut i: usize = 0;
        proof {
            assert(before.take(0) =~= Seq::<EventView>::empty());
            assert(views(events@) =~= Seq::<EventView>::empty());
        }
        while rest.len() > 0
            invariant
                i + rest@.len() == initial_len,
                initial_len == before.len(),
                views(rest@) == before.subrange(i as int, initial_len as int),
                views(events@) == without_id(before.take(i as int), id@),
            decreases rest@.len(),
        {
            let ghost old_rest = rest@;
            let e = rest.remove(0);
            proof {
                assert(views(old_rest)[0] == old_rest[0]@);
                assert(before.subrange(i as int, initial_len as int)[0] == before[i as int]);
                assert(e@ == before[i as int]);
                assert(views(rest@) =~= views(old_rest).drop_first());
                assert(before.take(i + 1).drop_last() =~= before.take(i as int));
                assert(views(rest@) =~= before.subrange(i + 1, initial_len as int));
            }
            let ghost kept = events@;
            if !str_eq(e.id.as_str(), id) {
                events.push(e);
                proof {
                    assert(views(events@) =~= views(kept).push(before[i as int]));
                }
            }
            i = i + 1;
        }
        proof {
            assert(before.take(initial_len as int) =~= before);
            lemma_without_id_len(before, id@);
            if exists|j: int| 0 <= j < old(events)@.len() && (#[trigger] old(events)@[j]).id@ == id@ {
                let j = choose|j: int| 0 <= j < old(events)@.len() && (#[trigger] old(events)@[j]).id@ == id@;
                assert(before[j].id == id@);
            }
            if !(exists|j: int| 0 <= j < old(events)@.len() && (#[trigger] old(events)@[j]).id@ == id@) {
                assert forall|j: int| 0 <= j < before.len() implies (#[trigger] before[j]).id != id@ by {
                    assert(before[j] == old(events)@[j]@);
                }
            }
        }
        events.len() != initial_len
    }
}

/// A read gives back what a write wrote: once an event is merged into the
/// stored events, looking up its id finds exactly that event.
pub proof fn lemma_merged_event_is_found(s: Seq<EventView>, e: EventView)
    ensures
        find_spec(upserted(s, e), e.id) == Some(e),
{
    lemma_index_of_id(s, e.id);
    let i = index_of_id(s, e.id) as int;
    let u = upserted(s, e);
    if i < s.len() {
        assert forall|j: int| 0 <= j < i implies (#[trigger] u[j]).id != e.id by {
            assert(u[j] == s[j]);
        }
        lemma_index_unique(u, e.id, i);
    } else {
        assert forall|j: int| 0 <= j < s.len() implies (#[trigger] u[j]).id != e.id by {
            assert(u[j] == s[j]);
        }
        lemma_index_unique(u, e.id, s.len() as int);
    }
}

/// Merging leaves the events of other ids untouched: a lookup of another id
/// finds what it found before.
pub proof fn lemma_merge_keeps_other_ids(s: Seq<EventView>, e: EventView, id: Seq<char>)
    requires
        id != e.id,
    ensures
        find_spec(upserted(s, e), id) == find_spec(s, id),
{
    lemma_index_of_id(s, id);
    lemma_index_of_id(s, e.id);
    let u = upserted(s, e);
    let k = index_of_id(s, id) as int;
    let i = index_of_id(s, e.id) as int;
    if k < s.len() {
        assert forall|j: int| 0 <= j < k implies (#[trigger] u[j]).id != id by {
            if j < s.len() {
                assert(u[j] == s[j] || j == i);
            }
        }
        assert(u[k] == s[k]);
        lemma_index_unique(u, id, k);
    } else {
        assert forall|j: int| 0 <= j < u.len() implies (#[trigger] u[j]).id != id by {
            if j < s.len() && j != i {
                assert(u[j] == s[j]);
            }
        }
        lemma_index_unique(u, id, u.len() as int);
    }
}

/// Whether no two events of `s` share an id.
pub open spec fn ids_unique(s: Seq<EventView>) -> bool {
    forall|i: int, j: int| 0 <= i < j < s.len() ==> (#[trigger] s[i]).id != (#[trigger] s[j]).id
}

/// Merging keeps the ids of a store unique: an event with a known id takes
/// the place of its namesake, one with a new id is added.
pub proof fn lemma_merge_keeps_ids_unique(s: Seq<EventView>, e: EventView)
    requires
        ids_unique(s),
    ensures
        ids_unique(upserted(s, e)),
{
    lemma_index_of_id(s, e.id);
    let u = upserted(s, e);
    let k = index_of_id(s, e.id) as int;
    assert forall|i: int, j: int| 0 <= i < j < u.len() implies (#[trigger] u[i]).id != (#[trigger] u[j]).id by {
        if k < s.len() {
            if i == k {
                assert(s[k].id == e.id);
                assert(s[j].id != s[k].id);
            } else if j == k {
                assert(s[i].id != s[k].id);
            } else {
                assert(u[i] == s[i] && u[j] == s[j]);
            }
        } else {
            if j == s.len() {
                assert(u[i] == s[i]);
            } else {
                assert(u[i] == s[i] && u[j] == s[j]);
            }
        }
    }
}

/// After a removal no event of the id is left, so a lookup finds nothing.
pub proof fn lemma_removed_id_is_gone(s: Seq<EventView>, id: Seq<char>)
    ensures
        forall|j: int| 0 <= j < without_id(s, id).len() ==> (#[trigger] without_id(s, id)[j]).id != id,
        find_spec(without_id(s, id), id) is None,
    decreases s.len(),
{
    if s.len() > 0 {
        lemma_removed_id_is_gone(s.drop_last(), id);
    }
    let w = without_id(s, id);
    lemma_index_of_id(w, id);
}

} // verus!
