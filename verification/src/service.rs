//! What the store answers to each request: from the body that came in, and
//! the store as it is, to the body that goes out and the store as it is then.
//! Receiving the request and sending the reply is left to the caller.

use vstd::prelude::*;
use crate::messages::{
    ActivateRequest, AddVersionRequest, AddVersionResponse, GetActivatorResponse,
    GetActiveVersionResponse, GetVersionContentResponse, GetVersionMetadataResponse,
    GetVersionsResponse,
};
use crate::metadata::User;
use crate::registry::{Registry, RegistryError};

verus! {

/// Adds the version that the request holds and replies with its identifier.
pub fn add_version<C>(registry: &mut Registry<C>, request: AddVersionRequest<C>) -> (r: Result<
    AddVersionResponse,
    RegistryError,
>)
    requires
        old(registry).wf(),
    ensures
        final(registry).wf(),
        match r {
            Ok(reply) => {
                &&& !old(registry)@.is_full()
                &&& reply.version == old(registry)@.next_version()
                &&& final(registry)@ == old(registry)@.add(request.metadata, request.content)
            },
            Err(e) => {
                &&& old(registry)@.is_full()
                &&& e == RegistryError::Storage
                &&& final(registry)@ == old(registry)@
            },
        },
{
    match registry.add_version(request.metadata, request.content) {
        Ok(version) => Ok(AddVersionResponse { version }),
        Err(e) => Err(e),
    }
}

/// Activates the version that the request names, in the name of the user
/// who sent it.
pub fn activate<C>(registry: &mut Registry<C>, request: ActivateRequest, user: User) -> (r: Result<
    (),
    RegistryError,
>)
    requires
        old(registry).wf(),
    ensures
        final(registry).wf(),
        final(registry)@ == old(registry)@.activate(request.version, user),
        match r {
            Ok(_) => old(registry)@.contains(request.version),
            Err(e) => {
                &&& !old(registry)@.contains(request.version)
                &&& e == RegistryError::NotFound(request.version)
            },
        },
{
    registry.activate(request.version, user)
}

/// Deactivates whichever version is active.
pub fn deactivate<C>(registry: &mut Registry<C>)
    requires
        old(registry).wf(),
    ensures
        final(registry).wf(),
        final(registry)@ == old(registry)@.deactivate(),
{
    registry.deactivate()
}

/// Replies with what is recorded about every version.
pub fn get_versions<C>(registry: &Registry<C>) -> (reply: GetVersionsResponse)
    requires
        registry.wf(),
    ensures
        reply.versions@ == registry@.listing(),
{
    GetVersionsResponse { versions: registry.get_versions() }
}

/// Replies with the identifier of the active version, if one is active.
pub fn get_active_version<C>(registry: &Registry<C>) -> (reply: GetActiveVersionResponse)
    requires
        registry.wf(),
    ensures
        reply.version == registry@.active_version(),
{
    GetActiveVersionResponse { version: registry.get_active_version() }
}

/// Replies with the user who activated the active version, if one is
/// active.
pub fn get_activator<C>(registry: &Registry<C>) -> (reply: GetActivatorResponse)
    requires
        registry.wf(),
    ensures
        reply.user == registry@.activator(),
{
    match registry.get_activator() {
        Some(user) => GetActivatorResponse { user: Some(user.clone()) },
        None => GetActivatorResponse { user: None },
    }
}

/// Replies with what is recorded about one version.
pub fn get_version_metadata<C>(registry: &Registry<C>, version: u64) -> (r: Result<
    GetVersionMetadataResponse,
    RegistryError,
>)
    requires
        registry.wf(),
    ensures
        match r {
            Ok(reply) => {
                &&& registry@.contains(version)
                &&& reply.metadata == registry@.record(version).metadata
            },
            Err(e) => !registry@.contains(version) && e == RegistryError::NotFound(version),
        },
{
    match registry.get_version_metadata(version) {
        Ok(metadata) => Ok(GetVersionMetadataResponse { metadata: metadata.clone() }),
        Err(e) => Err(e),
    }
}

/// Replies with the content of one version, which stays where it is: the
/// reply borrows it.
pub fn get_version_content<C>(registry: &Registry<C>, version: u64) -> (r: Result<
    GetVersionContentResponse<&C>,
    RegistryError,
>)
    requires
        registry.wf(),
    ensures
        match r {
            Ok(reply) => {
                &&& registry@.contains(version)
                &&& *reply.content == registry@.record(version).content
            },
            Err(e) => !registry@.contains(version) && e == RegistryError::NotFound(version),
        },
{
    match registry.get_version_content(version) {
        Ok(content) => Ok(GetVersionContentResponse { content }),
        Err(e) => Err(e),
    }
}

} // verus!
