//! The entities that the service keeps.

use vstd::prelude::*;

verus! {

/// What a repository has to know of an entity in order to keep it.
pub trait BaseModel: Sized {
    /// The identifier of the entity. No two rows of a table share one.
    spec fn model_id(&self) -> u128;

    /// Whether the entity has not been soft-deleted.
    spec fn is_live(&self) -> bool;

    /// Whether a uniqueness rule of the entity forbids that `self` and `other`
    /// are live at the same time.
    spec fn collides(&self, other: &Self) -> bool;
}

/// An organization: an identifier that is its own for ever, a name that no
/// other live organization has, and whether it has been soft-deleted.
#[derive(Debug, Clone, PartialEq, Eq)]
pub struct Organization {
    pub id: u128,
    pub name: String,
    pub deleted: bool,
}

impl BaseModel for Organization {
    open spec fn model_id(&self) -> u128 {
        self.id
    }

    open spec fn is_live(&self) -> bool {
        !self.deleted
    }

    open spec fn collides(&self, other: &Self) -> bool {
        self.name@ == other.name@
    }
}

impl Organization {
    /// A live organization.
    pub fn new(id: u128, name: String) -> (organization: Self)
        ensures
            organization == (Organization { id, name, deleted: false }),
    {
        Organization { id, name, deleted: false }
    }

    /// A copy that equals `self` field by field.
    pub fn duplicate(&self) -> (copy: Self)
        ensures
            copy == *self,
    {
        Organization { id: self.id, name: self.name.clone(), deleted: self.deleted }
    }
}

} // verus!
