//! The bodies of the requests and of the replies, one shape for each
//! endpoint that has one. The names of the fields are the names on the wire.

use vstd::prelude::*;
use std::collections::HashMap;
use vstd::pervasive::cloned;
use crate::metadata::{AttachedMetadata, Metadata, User};

verus! {

/// What is sent to add a version.
#[derive(Debug, PartialEq, Eq)]
pub struct AddVersionRequest<C> {
    /// What the caller says about the policy.
    pub metadata: AttachedMetadata,
    /// The policy itself.
    pub content: C,
}

impl<C: Clone> Clone for AddVersionRequest<C> {
    fn clone(&self) -> (copy: Self)
        ensures
            copy.metadata == self.metadata,
            cloned(self.content, copy.content),
    {
        AddVersionRequest { metadata: self.metadata.clone(), content: self.content.clone() }
    }
}

/// What comes back when a version was added.
#[derive(Clone, Copy, Debug, PartialEq, Eq, Structural)]
pub struct AddVersionResponse {
    /// The identifier that the new version was given.
    pub version: u64,
}

/// What is sent to activate a version.
#[derive(Clone, Copy, Debug, PartialEq, Eq, Structural)]
pub struct ActivateRequest {
    /// The identifier of the version to activate.
    pub version: u64,
}

/// What comes back when the versions are listed.
#[derive(Debug, PartialEq, Eq)]
pub struct GetVersionsResponse {
    /// What is recorded about each version, by identifier.
    pub versions: HashMap<u64, Metadata>,
}

impl Clone for GetVersionsResponse {
    fn clone(&self) -> (copy: Self)
        ensures
            copy.versions@ == self.versions@,
    {
        GetVersionsResponse { versions: self.versions.clone() }
    }
}

/// What comes back when the active version is asked for.
#[derive(Clone, Copy, Debug, PartialEq, Eq, Structural)]
pub struct GetActiveVersionResponse {
    /// The identifier of the active version, if one is active.
    pub version: Option<u64>,
}

/// What comes back when the activator is asked for.
#[derive(Debug, PartialEq, Eq)]
pub struct GetActivatorResponse {
    /// Who activated the active version, if one is active.
    pub user: Option<User>,
}

impl Clone for GetActivatorResponse {
    fn clone(&self) -> (copy: Self)
        ensures
            copy == *self,
    {
        match &self.user {
            Some(user) => GetActivatorResponse { user: Some(user.clone()) },
            None => GetActivatorResponse { user: None },
        }
    }
}

/// What comes back when the metadata of a version is asked for.
#[derive(Debug, PartialEq, Eq)]
pub struct GetVersionMetadataResponse {
    /// What is recorded about the version.
    pub metadata: Metadata,
}

impl Clone for GetVersionMetadataResponse {
    fn clone(&self) -> (copy: Self)
        ensures
            copy == *self,
    {
        GetVersionMetadataResponse { metadata: self.metadata.clone() }
    }
}

/// What comes back when the content of a version is asked for.
#[derive(Debug, PartialEq, Eq)]
pub struct GetVersionContentResponse<C> {
    /// The policy itself.
    pub content: C,
}

impl<C: Clone> Clone for GetVersionContentResponse<C> {
    fn clone(&self) -> (copy: Self)
        ensures
            cloned(self.content, copy.content),
    {
        GetVersionContentResponse { content: self.content.clone() }
    }
}

} // verus!
