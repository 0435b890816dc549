//! What holds of the store across its operations: adding an event and
//! removing it again, lookups around changes of events, and what the lists
//! of events show afterwards.

use vstd::prelude::*;

use crate::listing::{lemma_ordered_keys, ordered_keys, ordered_values};
use crate::model::{EventView, UserView};
use crate::store::{
    new_event_view, NewEventView,
    is_first_match, lemma_user_index, lookup, user_index, with_event, without_event,
};

verus! {

/// Removing the event that was just stored under a fresh key gives the users
/// back exactly as they were.
pub proof fn law_remove_undoes_add(s: Seq<UserView>, i: int, key: u128, e: EventView)
    requires
        0 <= i < s.len(),
        !s[i].events.contains_key(key),
    ensures
        without_event(with_event(s, i, key, e), i, key) == s,
{
    let t = without_event(with_event(s, i, key, e), i, key);
    assert(t[i].events =~= s[i].events);
    assert(t =~= s);
}

/// A request that removes the event which a request to add one just stored
/// finds the same user, finds the event, and leaves the users as they were
/// before the event was added.
pub proof fn law_remove_request_undoes_add_request(s: Seq<UserView>, id: u128, key: u128, e: EventView)
    requires
        user_index(s, id) is Some,
        !s[user_index(s, id)->0].events.contains_key(key),
    ensures
        ({
            let i = user_index(s, id)->0;
            let t = with_event(s, i, key, e);
            &&& user_index(t, id) == Some(i)
            &&& t[i].events.contains_key(key)
            &&& without_event(t, i, key) == s
        }),
{
    let i = user_index(s, id)->0;
    lemma_user_index(s, id);
    law_lookup_ignores_events(s, i, key, e, id);
    law_remove_undoes_add(s, i, key, e);
}

/// Adding or removing an event leaves every lookup where it was: the users'
/// identifiers and their order do not change.
pub proof fn law_lookup_ignores_events(s: Seq<UserView>, i: int, key: u128, e: EventView, id: u128)
    requires
        0 <= i < s.len(),
    ensures
        user_index(with_event(s, i, key, e), id) == user_index(s, id),
        user_index(without_event(s, i, key), id) == user_index(s, id),
{
    let a = with_event(s, i, key, e);
    let b = without_event(s, i, key);
    assert forall|j: int| 0 <= j < s.len() implies #[trigger] a[j].uuid == s[j].uuid && b[j].uuid
        == s[j].uuid by {}
    lemma_user_index(s, id);
    lemma_user_index(a, id);
    lemma_user_index(b, id);
    match user_index(s, id) {
        Some(k) => {
            assert(is_first_match(a, id, k));
            assert(is_first_match(b, id, k));
        },
        None => {
            if let Some(k) = user_index(a, id) {
                assert(s[k].uuid == id);
            }
            if let Some(k) = user_index(b, id) {
                assert(s[k].uuid == id);
            }
        },
    }
}

/// Adding an event changes nothing but the events of the one user: every
/// other user stays as it was, and that user keeps its identifier and name.
pub proof fn law_add_touches_one_user(s: Seq<UserView>, i: int, key: u128, e: EventView)
    requires
        0 <= i < s.len(),
    ensures
        with_event(s, i, key, e).len() == s.len(),
        forall|j: int| 0 <= j < s.len() && j != i ==> #[trigger] with_event(s, i, key, e)[j] == s[j],
        with_event(s, i, key, e)[i].uuid == s[i].uuid,
        with_event(s, i, key, e)[i].name == s[i].name,
        with_event(s, i, key, e)[i].events == s[i].events.insert(key, e),
{
}

/// The listing of a map's values, in key order, has one entry per key, and
/// the value under each key is in it.
pub proof fn law_listing_complete<V>(m: Map<u128, V>, k: u128)
    requires
        m.dom().finite(),
    ensures
        ordered_values(m).len() == m.dom().len(),
        m.contains_key(k) ==> ordered_values(m).contains(m[k]),
{
    lemma_ordered_keys(m.dom(), Seq::empty());
    let ks = ordered_keys(m.dom());
    ks.unique_seq_to_set();
    if m.contains_key(k) {
        assert(ks.to_set().contains(k));
        assert(ks.contains(k));
        let j = choose|j: int| 0 <= j < ks.len() && ks[j] == k;
        assert(ordered_values(m)[j] == m[k]);
    }
}

/// After an event was stored for a user, looking the user up finds the
/// event under its key, and the user's list of events shows it.
pub proof fn law_added_event_is_listed(s: Seq<UserView>, id: u128, key: u128, e: EventView)
    requires
        user_index(s, id) is Some,
        s[user_index(s, id)->0].events.dom().finite(),
    ensures
        ({
            let t = with_event(s, user_index(s, id)->0, key, e);
            &&& lookup(t, id) matches Some(u)
            &&& u.events.contains_key(key)
            &&& u.events[key] == e
            &&& ordered_values(u.events).contains(e)
        }),
{
    let i = user_index(s, id)->0;
    lemma_user_index(s, id);
    law_lookup_ignores_events(s, i, key, e, id);
    let t = with_event(s, i, key, e);
    law_listing_complete(t[i].events, key);
}

/// After an event was removed, the user's list of events no longer has an
/// entry under its key.
pub proof fn law_removed_event_is_gone(s: Seq<UserView>, id: u128, key: u128)
    requires
        user_index(s, id) is Some,
        s[user_index(s, id)->0].events.dom().finite(),
    ensures
        ({
            let t = without_event(s, user_index(s, id)->0, key);
            &&& lookup(t, id) matches Some(u)
            &&& !u.events.contains_key(key)
            &&& !ordered_keys(u.events.dom()).contains(key)
        }),
{
    let i = user_index(s, id)->0;
    lemma_user_index(s, id);
    law_lookup_ignores_events(s, i, key, EventView { uuid: 0, name: Seq::empty(), date: 0 }, id);
    let t = without_event(s, i, key);
    lemma_ordered_keys(t[i].events.dom(), Seq::empty());
    if ordered_keys(t[i].events.dom()).contains(key) {
        assert(ordered_keys(t[i].events.dom()).to_set().contains(key));
    }
}

/// The event that a request to add one stores is the form's event, as the
/// form gave it: its name whole and unchanged, its date unchanged, and the
/// new key as its identifier; it is found under that key afterwards.
pub proof fn law_new_event_keeps_the_form(s: Seq<UserView>, i: int, p: NewEventView, key: u128)
    requires
        0 <= i < s.len(),
    ensures
        new_event_view(p, key).name == p.event_name,
        new_event_view(p, key).name.len() == p.event_name.len(),
        new_event_view(p, key).date == p.event_date,
        new_event_view(p, key).uuid == key,
        with_event(s, i, key, new_event_view(p, key))[i].events[key].name == p.event_name,
        with_event(s, i, key, new_event_view(p, key))[i].events[key].date == p.event_date,
{
}

} // verus!
