//! The data that the server keeps: events, users and the mathematical views
//! that the contracts speak of.

use std::collections::BTreeMap;
use vstd::prelude::*;
use vstd::std_specs::btree::increasing_seq;
use vstd::std_specs::iter::IteratorSpec;

use crate::bindings::non_empty_string_new;
use crate::listing::{lemma_increasing_keys, lemma_ordered_keys, ordered_values};

verus! {

/// What an event is, mathematically.
pub struct EventView {
    pub uuid: u128,
    pub name: Seq<char>,
    pub date: i64,
}

/// An event of a user: its identifier, a non-empty name and its date in
/// seconds since the Unix epoch, UTC.
pub struct Event {
    uuid: u128,
    name: String,
    date: i64,
}

impl View for Event {
    type V = EventView;

    closed spec fn view(&self) -> EventView {
        EventView { uuid: self.uuid, name: self.name@, date: self.date }
    }
}

impl Event {
    #[verifier::type_invariant]
    spec fn name_not_empty(self) -> bool {
        self.name@.len() > 0
    }

    /// Builds an event; the name must not be empty, else the name comes back
    /// in `Err`.
    pub fn new(uuid: u128, name: String, date: i64) -> (r: Result<Event, String>)
        ensures
            match r {
                Ok(e) => name@.len() > 0 && e@ == (EventView { uuid, name: name@, date }),
                Err(n) => name@.len() == 0 && n@ == name@,
            },
    {
        match non_empty_string_new(name) {
            Ok(n) => Ok(Event { uuid, name: n, date }),
            Err(n) => Err(n),
        }
    }

    pub fn uuid(&self) -> (r: u128)
        ensures
            r == self@.uuid,
    {
        self.uuid
    }

    pub fn name(&self) -> (r: &str)
        ensures
            r@ == self@.name,
            r@.len() > 0,
    {
        proof {
            use_type_invariant(self);
        }
        self.name.as_str()
    }

    pub fn date(&self) -> (r: i64)
        ensures
            r == self@.date,
    {
        self.date
    }
}

/// What a user is, mathematically: the events are keyed by their
/// identifiers.
pub struct UserView {
    pub uuid: u128,
    pub name: Seq<char>,
    pub events: Map<u128, EventView>,
}

/// A user: its identifier, a non-empty name and its events, keyed by event
/// identifier.
pub struct User {
    uuid: u128,
    name: String,
    events: BTreeMap<u128, Event>,
}

/// The view of a map of events.
pub open spec fn events_view(m: Map<u128, Event>) -> Map<u128, EventView> {
    m.map_values(|e: Event| e@)
}

impl View for User {
    type V = UserView;

    closed spec fn view(&self) -> UserView {
        UserView { uuid: self.uuid, name: self.name@, events: events_view(self.events@) }
    }
}

impl User {
    #[verifier::type_invariant]
    spec fn name_not_empty(self) -> bool {
        self.name@.len() > 0
    }

    /// Builds a user with the given events; the name must not be empty, else
    /// the name comes back in `Err`.
    pub fn new(uuid: u128, name: String, events: BTreeMap<u128, Event>) -> (r: Result<User, String>)
        ensures
            match r {
                Ok(u) => name@.len() > 0 && u@ == (UserView {
                    uuid,
                    name: name@,
                    events: events_view(events@),
                }),
                Err(n) => name@.len() == 0 && n@ == name@,
            },
    {
        match non_empty_string_new(name) {
            Ok(n) => Ok(User { uuid, name: n, events }),
            Err(n) => Err(n),
        }
    }

    /// Gives the parts back: identifier, name and events.
    pub fn into_parts(self) -> (r: (u128, String, BTreeMap<u128, Event>))
        ensures
            r.0 == self@.uuid,
            r.1@ == self@.name,
            events_view(r.2@) == self@.events,
    {
        (self.uuid, self.name, self.events)
    }

    pub fn uuid(&self) -> (r: u128)
        ensures
            r == self@.uuid,
    {
        self.uuid
    }

    pub fn name(&self) -> (r: &str)
        ensures
            r@ == self@.name,
            r@.len() > 0,
    {
        proof {
            use_type_invariant(self);
        }
        self.name.as_str()
    }

    /// A user has finitely many events.
    pub proof fn lemma_events_finite(&self)
        ensures
            self@.events.dom().finite(),
    {
        broadcast use vstd::std_specs::btree::group_btree_axioms;
        assert(self@.events.dom() =~= self.events@.dom());
    }

    /// The events of the user, keyed by event identifier.
    pub fn events(&self) -> (r: &BTreeMap<u128, Event>)
        ensures
            events_view(r@) == self@.events,
    {
        &self.events
    }

    /// The events of the user, in increasing order of their keys.
    pub fn events_in_order(&self) -> (r: Vec<&Event>)
        ensures
            r@.map_values(|e: &Event| e@) == ordered_values(self@.events),
    {
        broadcast use vstd::std_specs::btree::group_btree_axioms, vstd::laws_cmp::group_laws_cmp;
        let iter = self.events.iter();
        let ghost s = iter.remaining();
        let ghost ks = s.map_values(|kv: (&u128, &Event)| *kv.0);
        proof {
            assert(increasing_seq(ks));
        }
        let mut r: Vec<&Event> = Vec::new();
        for kv in it: iter
            invariant
                it.seq() == s,
                r.len() == it.index(),
                forall|i: int| 0 <= i < it.index() ==> #[trigger] r@[i] == *s[i].1,
        {
            let (_key, e) = kv;
            r.push(e);
        }
        proof {
            let m = self.events@;
            lemma_increasing_keys(ks);
            assert forall|x: u128| #[trigger] ks.to_set().contains(x) <==> m.dom().contains(x) by {
                if ks.to_set().contains(x) {
                    assert(ks.contains(x));
                    let i = choose|i: int| 0 <= i < ks.len() && ks[i] == x;
                    assert(m.contains_key(*s[i].0));
                }
                if m.dom().contains(x) {
                    assert(s.contains((&x, &m[x])));
                    let i = choose|i: int| 0 <= i < s.len() && s[i] == (&x, &m[x]);
                    assert(ks[i] == x);
                    assert(ks.contains(x));
                }
            }
            assert(ks.to_set() =~= m.dom());
            lemma_ordered_keys(m.dom(), ks);
            assert(self@.events.dom() =~= m.dom());
            assert forall|i: int| 0 <= i < s.len() implies #[trigger] r@[i]@ == self@.events[ks[i]] by {
                assert(m.contains_key(*s[i].0));
                assert(m[*s[i].0] == *s[i].1);
            }
            assert(r@.map_values(|e: &Event| e@) =~= ordered_values(self@.events));
        }
        r
    }

    /// Stores `event` under `key` unless the key is taken; says whether it
    /// stored it. The identifier and the name never change.
    pub fn insert_event_if_vacant(&mut self, key: u128, event: Event) -> (inserted: bool)
        ensures
            inserted == !old(self)@.events.contains_key(key),
            final(self)@.uuid == old(self)@.uuid,
            final(self)@.name == old(self)@.name,
            final(self)@.events == (if inserted {
                old(self)@.events.insert(key, event@)
            } else {
                old(self)@.events
            }),
    {
        broadcast use vstd::std_specs::btree::group_btree_axioms, vstd::laws_cmp::group_laws_cmp;
        if self.events.contains_key(&key) {
            false
        } else {
            proof {
                use_type_invariant(&*self);
            }
            let mut events = BTreeMap::new();
            std::mem::swap(&mut events, &mut self.events);
            events.insert(key, event);
            self.events = events;
            proof {
                assert(events_view(self.events@) =~= events_view(old(self).events@).insert(key, event@));
            }
            true
        }
    }

    /// Takes the event stored under `key` out, if there is one. The
    /// identifier and the name never change.
    pub fn remove_event(&mut self, key: u128) -> (r: Option<Event>)
        ensures
            final(self)@.uuid == old(self)@.uuid,
            final(self)@.name == old(self)@.name,
            final(self)@.events == old(self)@.events.remove(key),
            match r {
                Some(e) => old(self)@.events.contains_key(key) && e@ == old(self)@.events[key],
                None => !old(self)@.events.contains_key(key),
            },
    {
        broadcast use vstd::std_specs::btree::group_btree_axioms, vstd::laws_cmp::group_laws_cmp;
        proof {
            use_type_invariant(&*self);
        }
        let mut events = BTreeMap::new();
        std::mem::swap(&mut events, &mut self.events);
        let r = events.remove(&key);
        self.events = events;
        proof {
            assert(events_view(self.events@) =~= events_view(old(self).events@).remove(key));
        }
        r
    }
}

} // verus!
