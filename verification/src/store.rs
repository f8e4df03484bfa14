//! The registry itself: a mapping from identifiers to users that assigns each
//! new user the identifier one above the highest in use.

use crate::user::{User, UserRecord};
use std::collections::HashMap;
use vstd::prelude::*;

verus! {

/// The most users a store can hold: one for each identifier from 1 up to the
/// largest 32-bit value.
pub const CAPACITY: u32 = 0xffff_ffff;

/// `top` is the highest identifier in use in `names`, or 0 where none is.
pub open spec fn is_highest_id(names: Map<u32, Seq<char>>, top: int) -> bool {
    &&& top == 0 || (0 < top <= u32::MAX && names.contains_key(top as u32))
    &&& forall|id: u32| names.contains_key(id) ==> id <= top
}

/// The identifiers in use are exactly 1, 2, ..., up to the number of users.
pub open spec fn is_dense(names: Map<u32, Seq<char>>) -> bool {
    &&& names.dom().finite()
    &&& forall|id: u32| names.contains_key(id) <==> 1 <= id <= names.len()
}

/// The identifier that the next user gets: one above the number of users held.
pub open spec fn next_id(names: Map<u32, Seq<char>>) -> nat {
    names.len() + 1
}

/// The mapping after a user called `name` has been created in `names`.
pub open spec fn with_created(names: Map<u32, Seq<char>>, name: Seq<char>) -> Map<
    u32,
    Seq<char>,
> {
    names.insert(next_id(names) as u32, name)
}

/// What a lookup of `id` finds in `names`.
pub open spec fn lookup(names: Map<u32, Seq<char>>, id: u32) -> Option<Seq<char>> {
    if names.contains_key(id) {
        Some(names[id])
    } else {
        None
    }
}

/// A finite set of identifiers that are all between 1 and `bound` has at most
/// `bound` members, and exactly `bound` only if it holds every one of them.
proof fn lemma_ids_below(ids: Set<u32>, bound: nat)
    requires
        ids.finite(),
        bound <= u32::MAX,
        forall|id: u32| ids.contains(id) ==> 1 <= id <= bound,
    ensures
        ids.len() <= bound,
        ids.len() == bound ==> forall|id: u32| 1 <= id <= bound ==> ids.contains(id),
    decreases bound,
{
    if bound == 0 {
        assert(ids =~= Set::<u32>::empty());
    } else {
        let last = bound as u32;
        let rest = ids.remove(last);
        lemma_ids_below(rest, (bound - 1) as nat);
        if ids.len() == bound {
            assert(ids.contains(last));
            assert forall|id: u32| 1 <= id <= bound implies ids.contains(id) by {
                if id != last {
                    assert(rest.contains(id));
                }
            }
        }
    }
}

/// In a dense mapping the highest identifier in use is the number of users.
pub proof fn lemma_dense_highest(names: Map<u32, Seq<char>>, top: int)
    requires
        is_dense(names),
        is_highest_id(names, top),
    ensures
        top == names.len(),
        names.len() <= u32::MAX,
{
    lemma_ids_below(names.dom(), top as nat);
    if top < names.len() {
        if names.len() <= u32::MAX {
            assert(names.contains_key(names.len() as u32));
        } else {
            assert(names.contains_key(u32::MAX));
        }
    }
}

/// A dense mapping holds no more users than there are identifiers.
pub proof fn lemma_dense_bounded(names: Map<u32, Seq<char>>)
    requires
        is_dense(names),
    ensures
        names.len() <= u32::MAX,
{
    if names.len() > u32::MAX {
        assert(names.contains_key(u32::MAX));
        lemma_ids_below(names.dom(), u32::MAX as nat);
    }
}

/// Creating a user in a dense mapping that is not full keeps it dense, adds
/// exactly one entry, and touches no identifier that was in use.
pub proof fn lemma_with_created(names: Map<u32, Seq<char>>, name: Seq<char>)
    requires
        is_dense(names),
        names.len() < u32::MAX,
    ensures
        !names.contains_key(next_id(names) as u32),
        is_dense(with_created(names, name)),
        with_created(names, name).len() == names.len() + 1,
{
    let id = next_id(names) as u32;
    assert(!names.contains_key(id));
    assert(with_created(names, name).dom() =~= names.dom().insert(id));
}

/// The name of each user in `users`, under the same identifier.
spec fn names_of(users: Map<u32, User>) -> Map<u32, Seq<char>> {
    Map::new(|id: u32| users.contains_key(id), |id: u32| users[id]@)
}

/// `names_of` keeps the identifiers, and so the number of users.
proof fn lemma_names_of(users: Map<u32, User>)
    ensures
        names_of(users).dom() == users.dom(),
        names_of(users).len() == users.len(),
{
    assert(names_of(users).dom() =~= users.dom());
}

/// The users of a registry, each under the identifier it was given.
///
/// Identifiers are handed out by the store alone, starting at 1 and without
/// gaps; 0 is never used. Changing the store takes exclusive access (`&mut`),
/// reading it shared access, so no two changes overlap.
pub struct UserStore {
    users: HashMap<u32, User>,
}

impl View for UserStore {
    type V = Map<u32, Seq<char>>;

    /// The name held under each identifier in use.
    closed spec fn view(&self) -> Map<u32, Seq<char>> {
        names_of(self.users@)
    }
}

impl UserStore {
    #[verifier::type_invariant]
    spec fn well_formed(self) -> bool {
        is_dense(self@)
    }

    /// An empty store.
    pub fn new() -> (store: Self)
        ensures
            store@ == Map::<u32, Seq<char>>::empty(),
    {
        let users: HashMap<u32, User> = HashMap::new();
        assert(names_of(users@) =~= Map::<u32, Seq<char>>::empty());
        UserStore { users }
    }

    /// The number of users held. The identifiers in use are 1 up to that number.
    pub fn len(&self) -> (count: usize)
        ensures
            count == self@.len(),
            count <= CAPACITY,
            is_dense(self@),
    {
        proof {
            use_type_invariant(self);
            lemma_dense_bounded(self@);
            lemma_names_of(self.users@);
        }
        self.users.len()
    }

    /// Whether every identifier is in use, so that no further user can be created.
    pub fn is_full(&self) -> (full: bool)
        ensures
            full == (self@.len() >= CAPACITY),
    {
        self.len() >= CAPACITY as usize
    }

    /// The highest identifier in use, or 0 in an empty store. It is found by
    /// going through all the identifiers, and equals the number of users.
    pub fn highest_id(&self) -> (top: u32)
        ensures
            is_highest_id(self@, top as int),
            top == self@.len(),
    {
        let mut top: u32 = 0;
        for id in ids: self.users.keys()
            invariant
                top == 0 || self.users@.contains_key(top),
                forall|i: int| 0 <= i < ids.index() ==> *ids.seq()[i] <= top,
        {
            if *id > top {
                top = *id;
            }
        }
        proof {
            use_type_invariant(self);
            lemma_dense_highest(self@, top as int);
        }
        top
    }

    /// Stores `user` under the identifier one above the highest in use (1 in an
    /// empty store) and returns the record that was made. Finding the highest
    /// identifier takes time linear in the number of users.
    pub fn create(&mut self, user: User) -> (record: UserRecord)
        requires
            old(self)@.len() < CAPACITY,
        ensures
            is_highest_id(old(self)@, record.id - 1),
            record@ == (next_id(old(self)@) as u32, user@),
            !old(self)@.contains_key(record.id),
            final(self)@ == with_created(old(self)@, user@),
            final(self)@.len() == old(self)@.len() + 1,
            is_dense(final(self)@),
    {
        proof {
            use_type_invariant(&*self);
            lemma_with_created(self@, user@);
        }
        let id: u32 = self.highest_id() + 1;
        let name = user.name.clone();
        // The map is taken out while it changes and put back afterwards, so
        // that the store is well-formed at every step.
        let mut users: HashMap<u32, User> = HashMap::new();
        assert(names_of(users@) =~= Map::<u32, Seq<char>>::empty());
        std::mem::swap(&mut users, &mut self.users);
        users.insert(id, user);
        assert(names_of(users@) =~= with_created(old(self)@, user@));
        self.users = users;
        UserRecord { id, name }
    }

    /// The user stored under `id`, if there is one. What is found depends on
    /// the store's contents and on `id` alone, and the store, borrowed shared,
    /// stays as it is. Only identifiers from 1 up to the number of users held
    /// are in use.
    pub fn get(&self, id: u32) -> (found: Option<&User>)
        ensures
            lookup(self@, id) == match found {
                Some(user) => Some(user@),
                None => None,
            },
            found.is_some() <==> 1 <= id <= self@.len(),
    {
        proof {
            use_type_invariant(self);
        }
        self.users.get(&id)
    }
}

} // verus!
