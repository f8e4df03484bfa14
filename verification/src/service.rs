//! The three requests that the registry answers, as functions from the
//! request's values and the store to a reply.

use crate::greeting::{greeting, greeting_text};
use crate::store::{lookup, next_id, with_created, UserStore, CAPACITY};
use crate::user::{User, UserRecord};
use vstd::prelude::*;

verus! {

/// Status of a reply that carries what was asked for.
pub const STATUS_OK: u16 = 200;

/// Status of the reply to a creation.
pub const STATUS_CREATED: u16 = 201;

/// Status of the reply to a lookup that found nothing.
pub const STATUS_NOT_FOUND: u16 = 404;

/// What a request is answered with.
#[derive(Debug, PartialEq, Eq)]
pub enum Reply {
    /// The greeting text, as plain text.
    Greeting(String),
    /// The record of the user that was created.
    Created(UserRecord),
    /// The user that was asked for.
    Found(User),
    /// No user has the identifier that was asked for.
    NotFound,
}

/// A reply with its texts as sequences of characters.
pub ghost enum ReplyView {
    Greeting(Seq<char>),
    Created(u32, Seq<char>),
    Found(Seq<char>),
    NotFound,
}

impl View for Reply {
    type V = ReplyView;

    open spec fn view(&self) -> ReplyView {
        match self {
            Reply::Greeting(text) => ReplyView::Greeting(text@),
            Reply::Created(record) => ReplyView::Created(record.id, record.name@),
            Reply::Found(user) => ReplyView::Found(user.name@),
            Reply::NotFound => ReplyView::NotFound,
        }
    }
}

/// The status that goes with each kind of reply.
pub open spec fn status_of(reply: ReplyView) -> u16 {
    match reply {
        ReplyView::Greeting(_) => STATUS_OK,
        ReplyView::Created(_, _) => STATUS_CREATED,
        ReplyView::Found(_) => STATUS_OK,
        ReplyView::NotFound => STATUS_NOT_FOUND,
    }
}

/// The reply to a lookup that found `found`.
pub open spec fn lookup_reply(found: Option<Seq<char>>) -> ReplyView {
    match found {
        Some(name) => ReplyView::Found(name),
        None => ReplyView::NotFound,
    }
}

impl Reply {
    /// The status that this reply is sent with.
    pub fn status(&self) -> (code: u16)
        ensures
            code == status_of(self@),
    {
        match self {
            Reply::Greeting(_) => STATUS_OK,
            Reply::Created(_) => STATUS_CREATED,
            Reply::Found(_) => STATUS_OK,
            Reply::NotFound => STATUS_NOT_FOUND,
        }
    }
}

/// Answers a greeting request: the greeting for `id`. No store is consulted,
/// and every identifier is greeted, in use or not.
pub fn greet(id: u32) -> (reply: Reply)
    ensures
        reply@ == ReplyView::Greeting(greeting_text(id)),
{
    Reply::Greeting(greeting(id))
}

/// Answers a creation request: stores `user` under the next identifier and
/// replies with the record.
pub fn create_user(store: &mut UserStore, user: User) -> (reply: Reply)
    requires
        old(store)@.len() < CAPACITY,
    ensures
        reply@ == ReplyView::Created(next_id(old(store)@) as u32, user@),
        final(store)@ == with_created(old(store)@, user@),
{
    Reply::Created(store.create(user))
}

/// Answers a lookup request: the user stored under `id`, or that there is none.
pub fn get_user(store: &UserStore, id: u32) -> (reply: Reply)
    ensures
        reply@ == lookup_reply(lookup(store@, id)),
        reply@ is Found <==> 1 <= id <= store@.len(),
{
    match store.get(id) {
        Some(user) => Reply::Found(user.clone()),
        None => Reply::NotFound,
    }
}

} // verus!
