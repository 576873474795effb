//! A policy store that keeps its versions in memory.

use vstd::prelude::*;
use std::collections::HashMap;
use crate::metadata::{AttachedMetadata, Metadata, User};
use crate::state::{ActiveMarker, RegistryState, VersionRecord};

verus! {

broadcast use vstd::std_specs::hash::group_hash_axioms;

/// Why the store did not do what it was asked.
#[derive(Clone, Copy, Debug, PartialEq, Eq, Structural)]
pub enum RegistryError {
    /// No version with this identifier was added.
    NotFound(u64),
    /// The store cannot hold another version: every identifier is taken.
    Storage,
}

/// The store itself. It gives each version the next identifier, counting
/// from one, and keeps at most one of them marked as active.
///
/// Every operation needs the store to be well formed and leaves it so; a
/// store made by `new` is, and its fields are out of reach, so every store
/// that a caller can hold is well formed.
pub struct Registry<C> {
    records: Vec<VersionRecord<C>>,
    active: Option<ActiveMarker>,
}

impl<C> View for Registry<C> {
    type V = RegistryState<C>;

    closed spec fn view(&self) -> RegistryState<C> {
        RegistryState { records: self.records@, active: self.active }
    }
}

impl<C> Registry<C> {
    /// Whether the store is well formed.
    pub open spec fn wf(&self) -> bool {
        self@.wf()
    }

    /// A store without versions.
    pub fn new() -> (registry: Self)
        ensures
            registry@ == RegistryState::<C>::empty(),
            registry.wf(),
    {
        Registry { records: Vec::new(), active: None }
    }

    /// Adds a version and returns the identifier it was given. Fails, and
    /// changes nothing, only when the identifiers have run out.
    pub fn add_version(&mut self, attached: AttachedMetadata, content: C) -> (r: Result<
        u64,
        RegistryError,
    >)
        requires
            old(self).wf(),
        ensures
            final(self).wf(),
            match r {
                Ok(version) => {
                    &&& !old(self)@.is_full()
                    &&& version == old(self)@.next_version()
                    &&& final(self)@ == old(self)@.add(attached, content)
                },
                Err(e) => {
                    &&& old(self)@.is_full()
                    &&& e == RegistryError::Storage
                    &&& final(self)@ == old(self)@
                },
            },
    {
        if self.records.len() as u64 == u64::MAX {
            return Err(RegistryError::Storage);
        }
        let version: u64 = self.records.len() as u64 + 1;
        self.records.push(VersionRecord { metadata: Metadata { attached, version }, content });
        Ok(version)
    }

    /// Marks the version as the active one, in the user's name, whichever
    /// version was active before. Fails, and changes nothing, when no such
    /// version was added.
    pub fn activate(&mut self, version: u64, user: User) -> (r: Result<(), RegistryError>)
        requires
            old(self).wf(),
        ensures
            final(self).wf(),
            final(self)@ == old(self)@.activate(version, user),
            match r {
                Ok(_) => old(self)@.contains(version),
                Err(e) => !old(self)@.contains(version) && e == RegistryError::NotFound(version),
            },
    {
        if !self.has_version(version) {
            return Err(RegistryError::NotFound(version));
        }
        self.active = Some(ActiveMarker { version, activator: user });
        Ok(())
    }

    /// Clears the marker, so that no version is active. Where none was
    /// active, nothing changes.
    pub fn deactivate(&mut self)
        requires
            old(self).wf(),
        ensures
            final(self).wf(),
            final(self)@ == old(self)@.deactivate(),
    {
        self.active = None;
    }

    /// Tells whether a version with this identifier was added.
    pub fn has_version(&self, version: u64) -> (found: bool)
        ensures
            found == self@.contains(version),
    {
        self.place(version).is_some()
    }

    /// The place of the version with this identifier among the records.
    fn place(&self, version: u64) -> (place: Option<usize>)
        ensures
            match place {
                Some(index) => self@.contains(version) && index == version - 1,
                None => !self@.contains(version),
            },
    {
        let count: usize = self.records.len();
        if version >= 1 && version - 1 < count as u64 {
            Some((version - 1) as usize)
        } else {
            None
        }
    }

    /// How many versions were added.
    pub fn len(&self) -> (n: usize)
        ensures
            n == self@.records.len(),
    {
        self.records.len()
    }

    /// What is recorded about every version, by identifier.
    pub fn get_versions(&self) -> (versions: HashMap<u64, Metadata>)
        requires
            self.wf(),
        ensures
            versions@ == self@.listing(),
    {
        let mut versions: HashMap<u64, Metadata> = HashMap::new();
        let mut i: usize = 0;
        while i < self.records.len()
            invariant
                self.wf(),
                i <= self.records.len(),
                versions@ =~= Map::new(
                    |version: u64| 1 <= version <= i,
                    |version: u64| self@.record(version).metadata,
                ),
            decreases self.records.len() - i,
        {
            let metadata = self.records[i].metadata.clone();
            versions.insert(metadata.version, metadata);
            i = i + 1;
        }
        assert(versions@ =~= self@.listing());
        versions
    }

    /// The identifier of the active version, if one is active.
    pub fn get_active_version(&self) -> (version: Option<u64>)
        requires
            self.wf(),
        ensures
            version == self@.active_version(),
            version matches Some(v) ==> self@.contains(v),
    {
        match &self.active {
            Some(marker) => Some(marker.version),
            None => None,
        }
    }

    /// Who activated the active version, if one is active.
    pub fn get_activator(&self) -> (user: Option<&User>)
        requires
            self.wf(),
        ensures
            match user {
                Some(u) => self@.activator() == Some(*u),
                None => self@.activator().is_none(),
            },
            user.is_some() == self@.active_version().is_some(),
    {
        match &self.active {
            Some(marker) => Some(&marker.activator),
            None => None,
        }
    }

    /// What is recorded about the version with this identifier.
    pub fn get_version_metadata(&self, version: u64) -> (r: Result<&Metadata, RegistryError>)
        requires
            self.wf(),
        ensures
            match r {
                Ok(metadata) => {
                    &&& self@.contains(version)
                    &&& *metadata == self@.record(version).metadata
                    &&& metadata.version == version
                },
                Err(e) => !self@.contains(version) && e == RegistryError::NotFound(version),
            },
    {
        match self.place(version) {
            Some(index) => Ok(&self.records[index].metadata),
            None => Err(RegistryError::NotFound(version)),
        }
    }

    /// The content of the version with this identifier.
    pub fn get_version_content(&self, version: u64) -> (r: Result<&C, RegistryError>)
        requires
            self.wf(),
        ensures
            match r {
                Ok(content) => {
                    &&& self@.contains(version)
                    &&& *content == self@.record(version).content
                },
                Err(e) => !self@.contains(version) && e == RegistryError::NotFound(version),
            },
    {
        match self.place(version) {
            Some(index) => Ok(&self.records[index].content),
            None => Err(RegistryError::NotFound(version)),
        }
    }
}

} // verus!
