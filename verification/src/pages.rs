//! The pages that the server answers requests with: which page, for which
//! user, with which events and which message. Turning a page into HTML is
//! the template engine's work.

use vstd::prelude::*;

use crate::errors::CommonError;
use crate::listing::ordered_values;
use crate::model::{Event, EventView, User, UserView};
use crate::store::{lemma_user_index, lookup, NewEventOutcome, UserStore};

verus! {

/// A page, as a view.
pub enum PageView {
    Users,
    Index { users: Seq<UserView> },
    UsersList { users: Seq<UserView> },
    User { user: UserView, message: Option<Seq<char>> },
    UserDetails { user: UserView },
    NotFound,
    Error,
    EventsList { message: Option<Seq<char>>, user_uuid: u128, events: Seq<EventView> },
    Events { events: Seq<EventView> },
}

/// A page to render.
pub enum Page<'a> {
    /// The page that lists the users (it loads the list itself).
    Users,
    /// The start page with all users.
    Index { users: Vec<&'a User> },
    /// The fragment that lists all users.
    UsersList { users: Vec<&'a User> },
    /// The page of one user, maybe with a message on top.
    User { user: &'a User, message: Option<&'static str> },
    /// The details of one user.
    UserDetails { user: &'a User },
    /// The page that says that nothing was found.
    NotFound,
    /// The page that says that something went wrong.
    Error,
    /// The fragment that lists the events of a user, maybe with a message.
    EventsList { message: Option<&'static str>, user_uuid: u128, events: Vec<&'a Event> },
    /// The page of events.
    Events { events: Vec<&'a Event> },
}

/// The views of a sequence of borrowed users.
pub open spec fn user_refs_view(v: Seq<&User>) -> Seq<UserView> {
    v.map_values(|u: &User| u@)
}

/// The views of a sequence of borrowed events.
pub open spec fn event_refs_view(v: Seq<&Event>) -> Seq<EventView> {
    v.map_values(|e: &Event| e@)
}

/// The view of an optional message.
pub open spec fn message_view(m: Option<&str>) -> Option<Seq<char>> {
    match m {
        Some(s) => Some(s@),
        None => None,
    }
}

impl<'a> View for Page<'a> {
    type V = PageView;

    open spec fn view(&self) -> PageView {
        match self {
            Page::Users => PageView::Users,
            Page::Index { users } => PageView::Index { users: user_refs_view(users@) },
            Page::UsersList { users } => PageView::UsersList { users: user_refs_view(users@) },
            Page::User { user, message } => PageView::User {
                user: user@,
                message: message_view(*message),
            },
            Page::UserDetails { user } => PageView::UserDetails { user: user@ },
            Page::NotFound => PageView::NotFound,
            Page::Error => PageView::Error,
            Page::EventsList { message, user_uuid, events } => PageView::EventsList {
                message: message_view(*message),
                user_uuid: *user_uuid,
                events: event_refs_view(events@),
            },
            Page::Events { events } => PageView::Events { events: event_refs_view(events@) },
        }
    }
}

/// The page that lists the users.
pub fn process_users_page() -> (p: Page<'static>)
    ensures
        p@ == PageView::Users,
{
    Page::Users
}

/// The page of events that a bare event request answers with: it lists no
/// events.
pub fn process_event() -> (p: Page<'static>)
    ensures
        p@ == (PageView::Events { events: Seq::empty() }),
{
    let events: Vec<&Event> = Vec::new();
    let p = Page::Events { events };
    assert(event_refs_view(events@) =~= Seq::empty());
    p
}

impl UserStore {
    /// The start page: all users, in order.
    pub fn process_index(&self) -> (p: Page<'_>)
        ensures
            p@ == (PageView::Index { users: self@ }),
    {
        Page::Index { users: self.users_in_order() }
    }

    /// The fragment that lists all users, in order.
    pub fn process_users_list(&self) -> (p: Page<'_>)
        ensures
            p@ == (PageView::UsersList { users: self@ }),
    {
        Page::UsersList { users: self.users_in_order() }
    }

    /// The page of the user `id`, or the not-found page.
    pub fn process_user_page(&self, id: u128) -> (p: Page<'_>)
        ensures
            p@ == match lookup(self@, id) {
                Some(u) => PageView::User { user: u, message: None },
                None => PageView::NotFound,
            },
    {
        match self.find_user(id) {
            Some(i) => {
                proof {
                    lemma_user_index(self@, id);
                }
                Page::User { user: self.user(i), message: None }
            },
            None => Page::NotFound,
        }
    }

    /// The details of the user `id`, or the not-found page.
    pub fn process_get_user(&self, id: u128) -> (p: Page<'_>)
        ensures
            p@ == match lookup(self@, id) {
                Some(u) => PageView::UserDetails { user: u },
                None => PageView::NotFound,
            },
    {
        match self.find_user(id) {
            Some(i) => {
                proof {
                    lemma_user_index(self@, id);
                }
                Page::UserDetails { user: self.user(i) }
            },
            None => Page::NotFound,
        }
    }

    /// The fragment that lists the events of the user `id` in increasing
    /// order of their identifiers; `InvalidId` when no user has `id`.
    pub fn process_events_list(&self, id: u128) -> (r: Result<Page<'_>, CommonError>)
        ensures
            match lookup(self@, id) {
                Some(u) => r matches Ok(p) && p@ == (PageView::EventsList {
                    message: None,
                    user_uuid: id,
                    events: ordered_values(u.events),
                }),
                None => r matches Err(e) && e == CommonError::InvalidId,
            },
    {
        match self.find_user(id) {
            Some(i) => {
                proof {
                    lemma_user_index(self@, id);
                }
                let user = self.user(i);
                Ok(Page::EventsList { message: None, user_uuid: id, events: user.events_in_order() })
            },
            None => Err(CommonError::InvalidId),
        }
    }

    /// The page that answers a request to add an event: the user's page
    /// with "Event inserted" when it was stored, the error page when the
    /// identifier was taken, the not-found page when there is no such user.
    pub fn new_event_page(&self, outcome: &NewEventOutcome) -> (p: Page<'_>)
        requires
            match *outcome {
                NewEventOutcome::Inserted { user, key } => user < self@.len(),
                _ => true,
            },
        ensures
            p@ == match *outcome {
                NewEventOutcome::Inserted { user, key } => PageView::User {
                    user: self@[user as int],
                    message: Some("Event inserted"@),
                },
                NewEventOutcome::KeyTaken { .. } => PageView::Error,
                NewEventOutcome::UserNotFound => PageView::NotFound,
            },
    {
        match outcome {
            NewEventOutcome::Inserted { user, key } => Page::User {
                user: self.user(*user),
                message: Some("Event inserted"),
            },
            NewEventOutcome::KeyTaken { .. } => Page::Error,
            NewEventOutcome::UserNotFound => Page::NotFound,
        }
    }

    /// The fragment that answers a removed event: the events that the user
    /// at position `user` has left, with "Event removed" on top.
    pub fn remove_event_page(&self, user: usize) -> (p: Page<'_>)
        requires
            user < self@.len(),
        ensures
            p@ == (PageView::EventsList {
                message: Some("Event removed"@),
                user_uuid: self@[user as int].uuid,
                events: ordered_values(self@[user as int].events),
            }),
    {
        let u = self.user(user);
        Page::EventsList {
            message: Some("Event removed"),
            user_uuid: u.uuid(),
            events: u.events_in_order(),
        }
    }
}

} // verus!
