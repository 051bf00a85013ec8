//! The event store: the read-only lookup structure from which a report's
//! target event is resolved.
//!
//! An event is an immutable record of past room activity, addressed by an
//! event id that is unique across the store.  The report handler only ever
//! reads records; insertion exists so that the store can be populated by the
//! surrounding server.

use vstd::prelude::*;

verus! {

/// One stored event: its id, the room it belongs to, and the identity that
/// sent it.  Content beyond these addressing fields plays no part in report
/// handling and is not modelled.
pub struct EventRecord {
    pub event_id: String,
    pub room_id: String,
    pub sender: String,
}

/// The mathematical content of an [`EventRecord`]: the three fields as
/// character sequences.
pub struct EventRecordView {
    pub event_id: Seq<char>,
    pub room_id: Seq<char>,
    pub sender: Seq<char>,
}

impl View for EventRecord {
    type V = EventRecordView;

    open spec fn view(&self) -> EventRecordView {
        EventRecordView {
            event_id: self.event_id@,
            room_id: self.room_id@,
            sender: self.sender@,
        }
    }
}

/// The first record in `s` whose event id is `id`, if any.
pub open spec fn find_event(s: Seq<EventRecordView>, id: Seq<char>) -> Option<EventRecordView>
    decreases s.len(),
{
    if s.len() == 0 {
        None
    } else if s[0].event_id == id {
        Some(s[0])
    } else {
        find_event(s.drop_first(), id)
    }
}

/// A lookup misses exactly when no record carries the id.
pub proof fn lemma_find_event_none(s: Seq<EventRecordView>, id: Seq<char>)
    ensures
        find_event(s, id) is None <==> forall|j: int| 0 <= j < s.len() ==> s[j].event_id != id,
    decreases s.len(),
{
    if s.len() > 0 {
        lemma_find_event_none(s.drop_first(), id);
        if find_event(s, id) is None {
            assert forall|j: int| 0 <= j < s.len() implies s[j].event_id != id by {
                if j > 0 {
                    assert(s.drop_first()[j - 1] == s[j]);
                }
            }
        } else {
            if s[0].event_id != id {
                let j = choose|j: int|
                    0 <= j < s.drop_first().len() && s.drop_first()[j].event_id == id;
                assert(s[j + 1].event_id == id);
            }
        }
    }
}

/// The durable store of events, keyed by event id.
pub struct EventStore {
    events: Vec<EventRecord>,
}

impl View for EventStore {
    type V = Seq<EventRecordView>;

    closed spec fn view(&self) -> Seq<EventRecordView> {
        self.events@.map_values(|r: EventRecord| r@)
    }
}

impl EventStore {
    /// Event ids are unique across the store.
    pub open spec fn wf(&self) -> bool {
        forall|i: int, j: int|
            0 <= i < j < self@.len() ==> #[trigger] self@[i].event_id != #[trigger] self@[j].event_id
    }

    /// An empty store.
    pub fn new() -> (s: Self)
        ensures
            s@ =~= Seq::<EventRecordView>::empty(),
            s.wf(),
    {
        EventStore { events: Vec::new() }
    }

    /// Resolves an event id to its record, or `None` for an unknown id.
    pub fn lookup(&self, id: &String) -> (r: Option<&EventRecord>)
        ensures
            match r {
                Some(rec) => find_event(self@, id@) == Some(rec@),
                None => find_event(self@, id@) is None,
            },
    {
        let n = self.events.len();
        let mut i: usize = 0;
        proof {
            assert(self@.skip(0) =~= self@);
        }
        while i < n
            invariant
                i <= n,
                n == self@.len(),
                self@ == self.events@.map_values(|r: EventRecord| r@),
                find_event(self@, id@) == find_event(self@.skip(i as int), id@),
            decreases n - i,
        {
            proof {
                assert(self@.skip(i as int)[0] == self@[i as int]);
                assert(self@.skip(i as int).drop_first() =~= self@.skip(i + 1));
            }
            if self.events[i].event_id == *id {
                return Some(&self.events[i]);
            }
            i = i + 1;
        }
        proof {
            assert(self@.skip(n as int) =~= Seq::<EventRecordView>::empty());
        }
        None
    }

    /// Adds a record under a fresh event id; a record whose id is already
    /// present is refused and the store is unchanged.
    pub fn insert(&mut self, rec: EventRecord) -> (ok: bool)
        requires
            old(self).wf(),
        ensures
            final(self).wf(),
            ok <==> find_event(old(self)@, rec@.event_id) is None,
            ok ==> final(self)@ == old(self)@.push(rec@),
            !ok ==> final(self)@ == old(self)@,
    {
        match self.lookup(&rec.event_id) {
            Some(_) => false,
            None => {
                proof {
                    lemma_find_event_none(self@, rec@.event_id);
                }
                self.events.push(rec);
                proof {
                    assert(self@ =~= old(self)@.push(rec@));
                    assert(forall|j: int|
                        0 <= j < old(self)@.len() ==> #[trigger] self@[j] == old(self)@[j]);
                }
                true
            },
        }
    }
}

} // verus!
