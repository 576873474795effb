//! What is recorded about a policy and about who acts on it.

use vstd::prelude::*;

verus! {

/// Somebody who acts on the store. Who that is has been settled before a
/// value of this type is made; the store only records it.
#[derive(Debug, PartialEq, Eq)]
pub struct User {
    /// An identifier that tells this user from every other.
    pub id: String,
    /// The name by which the user is known.
    pub name: String,
}

impl Clone for User {
    fn clone(&self) -> (copy: Self)
        ensures
            copy == *self,
    {
        User { id: self.id.clone(), name: self.name.clone() }
    }
}

/// What a caller says about a policy when submitting it. The store keeps it
/// and hands it back as it came.
#[derive(Debug, PartialEq, Eq)]
pub struct AttachedMetadata {
    /// The name of the policy.
    pub name: String,
    /// What the policy is about.
    pub description: String,
}

impl Clone for AttachedMetadata {
    fn clone(&self) -> (copy: Self)
        ensures
            copy == *self,
    {
        AttachedMetadata { name: self.name.clone(), description: self.description.clone() }
    }
}

/// What the store records about a version: what the caller attached and the
/// identifier that the store gave the version.
#[derive(Debug, PartialEq, Eq)]
pub struct Metadata {
    /// What the caller attached.
    pub attached: AttachedMetadata,
    /// The identifier of the version.
    pub version: u64,
}

impl Clone for Metadata {
    fn clone(&self) -> (copy: Self)
        ensures
            copy == *self,
    {
        Metadata { attached: self.attached.clone(), version: self.version }
    }
}

} // verus!
