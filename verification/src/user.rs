//! The records that the registry holds and hands out.

use vstd::prelude::*;

verus! {

/// A user as a client submits it and as the store keeps it. A user carries no
/// identifier of its own: the store assigns one.
#[derive(Debug, PartialEq, Eq)]
pub struct User {
    pub name: String,
}

impl View for User {
    type V = Seq<char>;

    /// A user is its name.
    open spec fn view(&self) -> Seq<char> {
        self.name@
    }
}

impl Clone for User {
    fn clone(&self) -> (copy: Self)
        ensures
            copy == *self,
    {
        User { name: self.name.clone() }
    }
}

/// A stored user together with the identifier under which the store keeps it.
#[derive(Debug, PartialEq, Eq)]
pub struct UserRecord {
    pub id: u32,
    pub name: String,
}

impl View for UserRecord {
    type V = (u32, Seq<char>);

    /// A record is its identifier and its name.
    open spec fn view(&self) -> (u32, Seq<char>) {
        (self.id, self.name@)
    }
}

impl Clone for UserRecord {
    fn clone(&self) -> (copy: Self)
        ensures
            copy == *self,
    {
        UserRecord { id: self.id, name: self.name.clone() }
    }
}

} // verus!
