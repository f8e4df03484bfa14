//! The store as concurrent request handlers share it: one store behind one
//! lock, held for the length of one operation.

use crate::service::{create_user, get_user, lookup_reply, Reply, ReplyView};
use crate::store::{lookup, next_id, with_created, UserStore, CAPACITY};
use crate::user::User;
use std::sync::{Mutex, MutexGuard};
use vstd::prelude::*;

verus! {

/// `std::sync::Mutex`, carried as an opaque value.
#[verifier::external_type_specification]
#[verifier::external_body]
#[verifier::reject_recursive_types(T)]
pub struct ExMutex<T: ?Sized>(Mutex<T>);

/// `std::sync::MutexGuard`, carried as an opaque value.
#[verifier::external_type_specification]
#[verifier::external_body]
#[verifier::reject_recursive_types(T)]
pub struct ExMutexGuard<'a, T: ?Sized + 'a>(MutexGuard<'a, T>);

/// Why a shared store did not carry out an operation.
#[derive(Debug, PartialEq, Eq, Clone, Copy)]
pub enum StoreError {
    /// The lock cannot be taken any more: a thread failed while it held it.
    Unavailable,
    /// Every identifier is in use.
    Full,
}

/// Calls `Mutex::new`: a lock around `store`. Nothing is claimed of the
/// result; what a later holder finds in it is known only by the store's own
/// invariant.
#[verifier::external_body]
fn new_lock(store: UserStore) -> Mutex<UserStore> {
    Mutex::new(store)
}

/// Calls `Mutex::lock`, which waits until the lock is free, and gives the
/// guard, or `None` where the lock is poisoned. Nothing is claimed of which
/// of the two comes back. The lock must not be held by the calling thread:
/// every function here lets its guard go before it returns and calls nothing
/// that locks while it holds one.
#[verifier::external_body]
fn acquire<'a>(lock: &'a Mutex<UserStore>) -> Option<MutexGuard<'a, UserStore>> {
    lock.lock().ok()
}

/// Calls `DerefMut::deref_mut` on the guard: exclusive access to the store
/// behind the lock, for as long as the guard is borrowed.
#[verifier::external_body]
fn held_mut<'a, 'b>(guard: &'a mut MutexGuard<'b, UserStore>) -> &'a mut UserStore {
    &mut **guard
}

/// Calls `Deref::deref` on the guard: read access to the store behind the
/// lock, for as long as the guard is borrowed.
#[verifier::external_body]
fn held<'a, 'b>(guard: &'a MutexGuard<'b, UserStore>) -> &'a UserStore {
    &**guard
}

/// What a creation of a user called `name` answers, given the store that the
/// lock gave: `None` stands for a poisoned lock.
pub open spec fn creation_outcome(held: Option<Map<u32, Seq<char>>>, name: Seq<char>) -> Result<
    ReplyView,
    StoreError,
> {
    match held {
        None => Err(StoreError::Unavailable),
        Some(names) => if names.len() >= CAPACITY {
            Err(StoreError::Full)
        } else {
            Ok(ReplyView::Created(next_id(names) as u32, name))
        },
    }
}

/// The store that a creation of a user called `name` leaves behind the lock.
pub open spec fn store_after_creation(names: Map<u32, Seq<char>>, name: Seq<char>) -> Map<
    u32,
    Seq<char>,
> {
    if names.len() >= CAPACITY {
        names
    } else {
        with_created(names, name)
    }
}

/// What a lookup of `id` answers, given the store that the lock gave: `None`
/// stands for a poisoned lock.
pub open spec fn lookup_outcome(held: Option<Map<u32, Seq<char>>>, id: u32) -> Result<
    ReplyView,
    StoreError,
> {
    match held {
        None => Err(StoreError::Unavailable),
        Some(names) => Ok(lookup_reply(lookup(names, id))),
    }
}

/// The outcome of an operation with its texts as sequences of characters.
pub open spec fn outcome_view(result: Result<Reply, StoreError>) -> Result<ReplyView, StoreError> {
    match result {
        Ok(reply) => Ok(reply@),
        Err(error) => Err(error),
    }
}

/// The store behind `held`, if the lock gave one.
pub open spec fn held_view(held: Option<&UserStore>) -> Option<Map<u32, Seq<char>>> {
    match held {
        Some(store) => Some(store@),
        None => None,
    }
}

/// Carries out a creation on what the lock gave: on no store it reports the
/// store unavailable, on a full store that it is full, and otherwise it
/// stores `user` under the next identifier and replies with the record.
pub fn create_user_held(held: Option<&mut UserStore>, user: User) -> (result: Result<
    Reply,
    StoreError,
>)
    ensures
        match held {
            None => result == Err::<Reply, StoreError>(StoreError::Unavailable),
            Some(store) => {
                &&& outcome_view(result) == creation_outcome(Some(store@), user@)
                &&& final(store)@ == store_after_creation(store@, user@)
            },
        },
{
    match held {
        Some(store) => {
            if store.is_full() {
                Err(StoreError::Full)
            } else {
                Ok(create_user(store, user))
            }
        },
        None => Err(StoreError::Unavailable),
    }
}

/// Carries out a lookup on what the lock gave: on no store it reports the
/// store unavailable, and otherwise it replies with the user stored under
/// `id` or that there is none.
pub fn get_user_held(held: Option<&UserStore>, id: u32) -> (result: Result<Reply, StoreError>)
    ensures
        outcome_view(result) == lookup_outcome(held_view(held), id),
        result matches Ok(reply) ==> (reply@ is Found <==> 1 <= id <= held.unwrap()@.len()),
{
    match held {
        Some(store) => Ok(get_user(store, id)),
        None => Err(StoreError::Unavailable),
    }
}

/// A store that many handlers use at once. Each operation takes the lock,
/// works on the store as a whole, and lets the lock go: operations never
/// overlap, so the store they find is always one that a run of creations has
/// left, whichever threads made them.
pub struct SharedUserStore {
    lock: Mutex<UserStore>,
}

impl SharedUserStore {
    /// A shared store that holds no user yet: a lock made around the store
    /// that `UserStore::new` gives. What is behind a lock can change under a
    /// shared borrow, so no clause speaks of it.
    pub fn new() -> Self {
        SharedUserStore { lock: new_lock(UserStore::new()) }
    }

    /// Creates `user` in the store as it stands when the lock is taken, and
    /// replies with the record. Fails, and stores nothing, where the lock is
    /// poisoned or the store is full. Which store the lock gives depends on
    /// the other threads; `create_user_held` says what is done with each.
    pub fn create_user(&self, user: User) -> (result: Result<Reply, StoreError>)
        ensures
            result matches Ok(reply) ==> (reply@ matches ReplyView::Created(id, name) && id >= 1
                && name == user@),
    {
        let mut guard = acquire(&self.lock);
        let held = match &mut guard {
            Some(guard) => Some(held_mut(guard)),
            None => None,
        };
        create_user_held(held, user)
    }

    /// Looks `id` up in the store as it stands when the lock is taken, and
    /// replies with the user or that there is none. Fails where the lock is
    /// poisoned. Identifier 0 is never found. Which store the lock gives
    /// depends on the other threads; `get_user_held` says what is answered
    /// for each.
    pub fn get_user(&self, id: u32) -> (result: Result<Reply, StoreError>)
        ensures
            match result {
                Ok(reply) => reply@ is NotFound || (reply@ is Found && id >= 1),
                Err(error) => error == StoreError::Unavailable,
            },
    {
        let guard = acquire(&self.lock);
        let held = match &guard {
            Some(guard) => Some(held(guard)),
            None => None,
        };
        get_user_held(held, id)
    }
}

} // verus!
