//! What a run of creations does to a store: which identifiers it hands out
//! and what lookups find afterwards.

use crate::store::{is_dense, lemma_with_created, lookup, next_id, with_created};
use vstd::prelude::*;

verus! {

/// The mapping after users with the given names have been created in `start`,
/// one after another.
pub open spec fn after_creates(start: Map<u32, Seq<char>>, names: Seq<Seq<char>>) -> Map<
    u32,
    Seq<char>,
>
    decreases names.len(),
{
    if names.len() == 0 {
        start
    } else {
        with_created(after_creates(start, names.drop_last()), names.last())
    }
}

/// The identifier returned by creation number `i`, counted from 0, of such a run.
pub open spec fn created_id(start: Map<u32, Seq<char>>, names: Seq<Seq<char>>, i: int) -> nat {
    next_id(after_creates(start, names.take(i)))
}

/// A run of creations that fits into the store hands out the identifiers that
/// follow the ones in use, in order and without gaps; it leaves every earlier
/// user where it was, and afterwards each new identifier holds the name it was
/// created with.
pub proof fn lemma_run_of_creates(start: Map<u32, Seq<char>>, names: Seq<Seq<char>>)
    requires
        is_dense(start),
        start.len() + names.len() <= u32::MAX,
    ensures
        is_dense(after_creates(start, names)),
        after_creates(start, names).len() == start.len() + names.len(),
        forall|i: int|
            0 <= i < names.len() ==> #[trigger] created_id(start, names, i) == start.len() + i + 1,
        forall|id: u32|
            start.contains_key(id) ==> lookup(after_creates(start, names), id) == Some(start[id]),
        forall|i: int|
            0 <= i < names.len() ==> lookup(
                after_creates(start, names),
                #[trigger] created_id(start, names, i) as u32,
            ) == Some(names[i]),
    decreases names.len(),
{
    if names.len() > 0 {
        let before = names.drop_last();
        let middle = after_creates(start, before);
        lemma_run_of_creates(start, before);
        lemma_with_created(middle, names.last());
        assert forall|i: int| 0 <= i < names.len() implies #[trigger] created_id(start, names, i)
            == start.len() + i + 1 && lookup(
            after_creates(start, names),
            created_id(start, names, i) as u32,
        ) == Some(names[i]) by {
            if i < before.len() {
                assert(names.take(i) =~= before.take(i));
                assert(created_id(start, names, i) == created_id(start, before, i));
            } else {
                assert(names.take(i) =~= before);
            }
        }
    } else {
        assert forall|i: int| 0 <= i < names.len() implies #[trigger] created_id(start, names, i)
            == start.len() + i + 1 by {}
    }
}

/// Creations in an empty store return 1, 2, 3, ... in the order of the calls,
/// each identifier once.
pub proof fn lemma_ids_count_from_one(names: Seq<Seq<char>>)
    requires
        names.len() <= u32::MAX,
    ensures
        forall|i: int|
            0 <= i < names.len() ==> #[trigger] created_id(Map::empty(), names, i) == i + 1,
        forall|i: int, j: int|
            0 <= i < j < names.len() ==> created_id(Map::empty(), names, i) != created_id(
                Map::empty(),
                names,
                j,
            ),
{
    lemma_run_of_creates(Map::empty(), names);
}

/// After creations in an empty store, a lookup finds under each identifier
/// from 1 up to their number the name given in the creation that returned it,
/// and nothing under any other identifier.
pub proof fn lemma_lookup_after_creates(names: Seq<Seq<char>>, id: u32)
    requires
        names.len() <= u32::MAX,
    ensures
        lookup(after_creates(Map::empty(), names), id) == if 1 <= id <= names.len() {
            Some(names[id - 1])
        } else {
            None
        },
{
    lemma_run_of_creates(Map::empty(), names);
    if 1 <= id <= names.len() {
        assert(created_id(Map::empty(), names, id - 1) == id);
    }
}

/// A creation changes what a lookup finds under the identifier it returns,
/// and under no other.
pub proof fn lemma_create_keeps_others(names: Map<u32, Seq<char>>, name: Seq<char>, id: u32)
    requires
        is_dense(names),
        names.len() < u32::MAX,
    ensures
        lookup(with_created(names, name), id) == if id == next_id(names) {
            Some(name)
        } else {
            lookup(names, id)
        },
{
}

} // verus!
