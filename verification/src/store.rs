//! The users that the server keeps, looked up by identifier, and the changes
//! that requests make to their events.

use vstd::prelude::*;

use crate::errors::CommonError;
use crate::bindings::{non_empty_string_new, uuid_now_v7};
use crate::model::{Event, EventView, User, UserView};

verus! {

/// The views of a sequence of users.
pub open spec fn users_view(v: Seq<User>) -> Seq<UserView> {
    v.map_values(|u: User| u@)
}

/// `i` is the first position of `s` that holds the user `id`.
pub open spec fn is_first_match(s: Seq<UserView>, id: u128, i: int) -> bool {
    &&& 0 <= i < s.len()
    &&& s[i].uuid == id
    &&& forall|j: int| 0 <= j < i ==> s[j].uuid != id
}

/// Some position of `s` holds the user `id`.
pub open spec fn has_user(s: Seq<UserView>, id: u128) -> bool {
    exists|i: int| 0 <= i < s.len() && s[i].uuid == id
}

/// Where a lookup of `id` in `s` lands: the first user with that
/// identifier, if there is one.
pub open spec fn user_index(s: Seq<UserView>, id: u128) -> Option<int> {
    if has_user(s, id) {
        Some(choose|i: int| is_first_match(s, id, i))
    } else {
        None
    }
}

/// The user that a lookup of `id` in `s` finds.
pub open spec fn lookup(s: Seq<UserView>, id: u128) -> Option<UserView> {
    match user_index(s, id) {
        Some(i) => Some(s[i]),
        None => None,
    }
}

/// The users after the event `e` was stored under `key` for the user at `i`.
pub open spec fn with_event(s: Seq<UserView>, i: int, key: u128, e: EventView) -> Seq<UserView> {
    s.update(i, UserView { events: s[i].events.insert(key, e), ..s[i] })
}

/// The users after the event under `key` was taken from the user at `i`.
pub open spec fn without_event(s: Seq<UserView>, i: int, key: u128) -> Seq<UserView> {
    s.update(i, UserView { events: s[i].events.remove(key), ..s[i] })
}

proof fn lemma_first_match_exists(s: Seq<UserView>, id: u128, w: int)
    requires
        0 <= w < s.len(),
        s[w].uuid == id,
    ensures
        exists|i: int| is_first_match(s, id, i),
    decreases w,
{
    if exists|j: int| 0 <= j < w && s[j].uuid == id {
        let j = choose|j: int| 0 <= j < w && s[j].uuid == id;
        lemma_first_match_exists(s, id, j);
    } else {
        assert(is_first_match(s, id, w));
    }
}

/// A lookup lands on the first user with the identifier, and on nothing
/// when no user has it.
pub proof fn lemma_user_index(s: Seq<UserView>, id: u128)
    ensures
        match user_index(s, id) {
            Some(i) => is_first_match(s, id, i),
            None => forall|j: int| 0 <= j < s.len() ==> s[j].uuid != id,
        },
{
    if has_user(s, id) {
        let w = choose|w: int| 0 <= w < s.len() && s[w].uuid == id;
        lemma_first_match_exists(s, id, w);
    }
}

/// Two first matches are the same position.
proof fn lemma_first_match_unique(s: Seq<UserView>, id: u128, i: int, j: int)
    requires
        is_first_match(s, id, i),
        is_first_match(s, id, j),
    ensures
        i == j,
{
}

/// All users, kept in the order in which they were loaded.
pub struct UserStore {
    users: Vec<User>,
}

impl View for UserStore {
    type V = Seq<UserView>;

    closed spec fn view(&self) -> Seq<UserView> {
        users_view(self.users@)
    }
}

/// What became of a request to add an event.
pub enum NewEventOutcome {
    /// No user has the identifier.
    UserNotFound,
    /// The event was stored under `key` for the user at position `user`.
    Inserted { user: usize, key: u128 },
    /// The user at position `user` already had an event under `key`.
    KeyTaken { user: usize, key: u128 },
}

/// The form of a request to add an event, as a view.
pub struct NewEventView {
    pub user_uuid: u128,
    pub event_name: Seq<char>,
    pub event_date: i64,
}

/// The form of a request to add an event: for which user, under which
/// non-empty name and at which date (seconds since the Unix epoch, UTC).
pub struct NewEventParams {
    user_uuid: u128,
    event_name: String,
    event_date: i64,
}

impl View for NewEventParams {
    type V = NewEventView;

    closed spec fn view(&self) -> NewEventView {
        NewEventView {
            user_uuid: self.user_uuid,
            event_name: self.event_name@,
            event_date: self.event_date,
        }
    }
}

impl NewEventParams {
    #[verifier::type_invariant]
    spec fn name_not_empty(self) -> bool {
        self.event_name@.len() > 0
    }

    /// The form's fields; an empty name is refused and handed back.
    pub fn new(user_uuid: u128, event_name: String, event_date: i64) -> (r: Result<
        NewEventParams,
        String,
    >)
        ensures
            match r {
                Ok(p) => event_name@.len() > 0 && p@ == (NewEventView {
                    user_uuid,
                    event_name: event_name@,
                    event_date,
                }),
                Err(n) => event_name@.len() == 0 && n@ == event_name@,
            },
    {
        match non_empty_string_new(event_name) {
            Ok(n) => Ok(NewEventParams { user_uuid, event_name: n, event_date }),
            Err(n) => Err(n),
        }
    }

    pub fn user_uuid(&self) -> (r: u128)
        ensures
            r == self@.user_uuid,
    {
        self.user_uuid
    }
}

/// `key` is a version-7 identifier: version field 7, variant bits `10`.
pub open spec fn is_version_7(key: u128) -> bool {
    (key >> 76u128) & 0xfu128 == 7 && (key >> 62u128) & 0x3u128 == 2
}

/// The event that a request to add one stores under `key`.
pub open spec fn new_event_view(p: NewEventView, key: u128) -> EventView {
    EventView { uuid: key, name: p.event_name, date: p.event_date }
}

/// The form of a request to remove an event: whose, and which.
pub struct RemoveEventParams {
    pub user_uuid: u128,
    pub event_uuid: u128,
}

impl UserStore {
    /// A store that holds the given users, in that order.
    pub fn new(users: Vec<User>) -> (r: UserStore)
        ensures
            r@ == users_view(users@),
    {
        UserStore { users }
    }

    /// Gives the users back, in order.
    pub fn into_users(self) -> (r: Vec<User>)
        ensures
            users_view(r@) == self@,
    {
        self.users
    }

    /// Every user in the store has finitely many events.
    pub proof fn lemma_events_finite(&self)
        ensures
            forall|i: int| 0 <= i < self@.len() ==> #[trigger] self@[i].events.dom().finite(),
    {
        assert forall|i: int| 0 <= i < self@.len() implies #[trigger] self@[i].events.dom().finite() by {
            self.users@[i].lemma_events_finite();
        }
    }

    pub fn len(&self) -> (r: usize)
        ensures
            r == self@.len(),
    {
        self.users.len()
    }

    /// The user at position `i`.
    pub fn user(&self, i: usize) -> (r: &User)
        requires
            i < self@.len(),
        ensures
            r@ == self@[i as int],
    {
        &self.users[i]
    }

    /// All users, in order.
    pub fn users_in_order(&self) -> (r: Vec<&User>)
        ensures
            r@.map_values(|u: &User| u@) == self@,
    {
        let mut r: Vec<&User> = Vec::new();
        for i in 0..self.users.len()
            invariant
                r.len() == i,
                forall|j: int| 0 <= j < i ==> #[trigger] r@[j]@ == self@[j],
        {
            r.push(&self.users[i]);
        }
        assert(r@.map_values(|u: &User| u@) =~= self@);
        r
    }

    /// Finds the position of the first user with identifier `id`.
    pub fn find_user(&self, id: u128) -> (r: Option<usize>)
        ensures
            match r {
                Some(i) => user_index(self@, id) == Some(i as int),
                None => user_index(self@, id) is None,
            },
    {
        let mut i: usize = 0;
        while i < self.users.len()
            invariant
                i <= self@.len(),
                self@.len() == self.users@.len(),
                forall|j: int| 0 <= j < i ==> self@[j].uuid != id,
            decreases self.users@.len() - i,
        {
            if self.users[i].uuid() == id {
                proof {
                    assert(is_first_match(self@, id, i as int));
                    lemma_user_index(self@, id);
                    lemma_first_match_unique(self@, id, user_index(self@, id)->0, i as int);
                }
                return Some(i);
            }
            i = i + 1;
        }
        proof {
            lemma_user_index(self@, id);
        }
        None
    }

    /// Adds the event of the form under `key` to the user that the form
    /// names, unless no user has that identifier or the user already has an
    /// event under `key`. Nothing else changes.
    pub fn add_event_with_key(&mut self, params: NewEventParams, key: u128) -> (r: NewEventOutcome)
        ensures
            match user_index(old(self)@, params@.user_uuid) {
                None => r == NewEventOutcome::UserNotFound && final(self)@ == old(self)@,
                Some(i) => if old(self)@[i].events.contains_key(key) {
                    r == (NewEventOutcome::KeyTaken { user: i as usize, key })
                        && final(self)@ == old(self)@
                } else {
                    r == (NewEventOutcome::Inserted { user: i as usize, key })
                        && final(self)@ == with_event(old(self)@, i, key, new_event_view(params@, key))
                        && final(self)@[i].events[key] == (EventView {
                            uuid: key,
                            name: params@.event_name,
                            date: params@.event_date,
                        })
                },
            },
    {
        match self.find_user(params.user_uuid) {
            None => NewEventOutcome::UserNotFound,
            Some(i) => {
                proof {
                    use_type_invariant(&params);
                    lemma_user_index(self@, params@.user_uuid);
                }
                let NewEventParams { user_uuid, event_name, event_date } = params;
                let event = match Event::new(key, event_name, event_date) {
                    Ok(e) => e,
                    Err(_) => {
                        proof {
                            assert(false);
                        }
                        return NewEventOutcome::UserNotFound;
                    },
                };
                let inserted = self.users[i].insert_event_if_vacant(key, event);
                proof {
                    assert(self@ =~= (if inserted {
                        with_event(old(self)@, i as int, key, new_event_view(params@, key))
                    } else {
                        old(self)@
                    }));
                }
                if inserted {
                    NewEventOutcome::Inserted { user: i, key }
                } else {
                    NewEventOutcome::KeyTaken { user: i, key }
                }
            },
        }
    }

    /// Removes the event `event_uuid` of the user `user_uuid`. Fails with
    /// `InvalidId`, changing nothing, when there is no such user or the user
    /// has no such event; otherwise gives the user's position.
    pub fn remove_event(&mut self, params: RemoveEventParams) -> (r: Result<usize, CommonError>)
        ensures
            match user_index(old(self)@, params.user_uuid) {
                None => r == Err::<usize, CommonError>(CommonError::InvalidId) && final(self)@ == old(self)@,
                Some(i) => if old(self)@[i].events.contains_key(params.event_uuid) {
                    r == Ok::<usize, CommonError>(i as usize)
                        && final(self)@ == without_event(old(self)@, i, params.event_uuid)
                } else {
                    r == Err::<usize, CommonError>(CommonError::InvalidId) && final(self)@ == old(self)@
                },
            },
    {
        match self.find_user(params.user_uuid) {
            None => Err(CommonError::InvalidId),
            Some(i) => {
                proof {
                    lemma_user_index(self@, params.user_uuid);
                }
                let removed = self.users[i].remove_event(params.event_uuid);
                proof {
                    if removed is Some {
                        assert(self@ =~= without_event(old(self)@, i as int, params.event_uuid));
                    } else {
                        assert(self@[i as int].events =~= old(self)@[i as int].events);
                        assert(self@ =~= old(self)@);
                    }
                }
                match removed {
                    Some(_) => Ok(i),
                    None => Err(CommonError::InvalidId),
                }
            },
        }
    }

    /// Adds the event of the form to the user that it names, under a fresh
    /// version-7 identifier made from the clock. Whatever identifier came
    /// back, the outcome says which, and the store changes exactly when the
    /// outcome is `Inserted`.
    pub fn process_new_event(&mut self, params: NewEventParams) -> (r: NewEventOutcome)
        ensures
            match user_index(old(self)@, params@.user_uuid) {
                None => r == NewEventOutcome::UserNotFound && final(self)@ == old(self)@,
                Some(i) => match r {
                    NewEventOutcome::Inserted { user, key } => user == i
                        && is_version_7(key)
                        && !old(self)@[i].events.contains_key(key)
                        && final(self)@ == with_event(old(self)@, i, key, new_event_view(params@, key))
                        && final(self)@[i].events[key] == (EventView {
                            uuid: key,
                            name: params@.event_name,
                            date: params@.event_date,
                        }),
                    NewEventOutcome::KeyTaken { user, key } => user == i
                        && is_version_7(key)
                        && old(self)@[i].events.contains_key(key)
                        && final(self)@ == old(self)@,
                    NewEventOutcome::UserNotFound => false,
                },
            },
    {
        let key = uuid_now_v7();
        proof {
            lemma_user_index(self@, params@.user_uuid);
            assert(self@.len() == self.users.len());
        }
        self.add_event_with_key(params, key)
    }
}

} // verus!
