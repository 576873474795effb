//! The model of the policy store: the versions that were added and the
//! marker of the active one.
//!
//! Versions are numbered from one in the order in which they were added, so
//! the model keeps them as a sequence: the version with identifier `n` is its
//! element `n - 1`. Nothing ever removes or changes a version.

use vstd::prelude::*;
use crate::metadata::{AttachedMetadata, Metadata, User};

verus! {

/// One stored version of the policy: what is recorded about it and what it
/// says.
pub struct VersionRecord<C> {
    /// What is recorded about the version.
    pub metadata: Metadata,
    /// The policy itself, which the store never looks into.
    pub content: C,
}

/// Which version is active and who made it so. The two are always set and
/// cleared together.
#[derive(Debug, PartialEq, Eq)]
pub struct ActiveMarker {
    /// The identifier of the active version.
    pub version: u64,
    /// Who activated it.
    pub activator: User,
}

/// Everything the store knows.
pub struct RegistryState<C> {
    /// The versions, in the order in which they were added.
    pub records: Seq<VersionRecord<C>>,
    /// The marker of the active version, if one is active.
    pub active: Option<ActiveMarker>,
}

impl<C> RegistryState<C> {
    /// The store to which nothing was added yet.
    pub open spec fn empty() -> Self {
        RegistryState { records: Seq::empty(), active: None }
    }

    /// Whether a version with this identifier was added.
    pub open spec fn contains(self, version: u64) -> bool {
        1 <= version <= self.records.len()
    }

    /// The version with this identifier.
    pub open spec fn record(self, version: u64) -> VersionRecord<C>
        recommends
            self.contains(version),
    {
        self.records[version - 1]
    }

    /// What holds of every store: identifiers fit their type, each version
    /// carries the identifier of its place, and the marker, when set, names
    /// a version that was added.
    pub open spec fn wf(self) -> bool {
        &&& self.records.len() <= u64::MAX
        &&& forall|i: int|
            0 <= i < self.records.len() ==> (#[trigger] self.records[i]).metadata.version == i + 1
        &&& (self.active matches Some(marker) ==> self.contains(marker.version))
    }

    /// Whether every identifier has been given out.
    pub open spec fn is_full(self) -> bool {
        self.records.len() >= u64::MAX
    }

    /// The identifier that the next version gets.
    pub open spec fn next_version(self) -> u64
        recommends
            !self.is_full(),
    {
        (self.records.len() + 1) as u64
    }

    /// The store after a version with this attachment and content was added.
    pub open spec fn add(self, attached: AttachedMetadata, content: C) -> Self
        recommends
            !self.is_full(),
    {
        RegistryState {
            records: self.records.push(
                VersionRecord {
                    metadata: Metadata { attached, version: self.next_version() },
                    content,
                },
            ),
            active: self.active,
        }
    }

    /// The store after the user asked to activate the version: the marker is
    /// overwritten if the version was added, and nothing changes if not.
    pub open spec fn activate(self, version: u64, user: User) -> Self {
        if self.contains(version) {
            RegistryState {
                records: self.records,
                active: Some(ActiveMarker { version, activator: user }),
            }
        } else {
            self
        }
    }

    /// The store after deactivation: no version is active.
    pub open spec fn deactivate(self) -> Self {
        RegistryState { records: self.records, active: None }
    }

    /// The identifier of the active version, if one is active.
    pub open spec fn active_version(self) -> Option<u64> {
        match self.active {
            Some(marker) => Some(marker.version),
            None => None,
        }
    }

    /// Who activated the active version, if one is active.
    pub open spec fn activator(self) -> Option<User> {
        match self.active {
            Some(marker) => Some(marker.activator),
            None => None,
        }
    }

    /// What is recorded about each version, by identifier.
    pub open spec fn listing(self) -> Map<u64, Metadata> {
        Map::new(|version: u64| self.contains(version), |version: u64| self.record(version).metadata)
    }
}

/// One of the three requests that change the store.
pub enum Operation<C> {
    /// Add a version.
    Add {
        /// What the caller attached.
        attached: AttachedMetadata,
        /// The policy itself.
        content: C,
    },
    /// Activate a version in the name of a user.
    Activate {
        /// The identifier of the version.
        version: u64,
        /// Who asks.
        user: User,
    },
    /// Deactivate whichever version is active.
    Deactivate,
}

/// The store after one operation. An operation that fails leaves the store
/// as it was.
pub open spec fn step<C>(state: RegistryState<C>, op: Operation<C>) -> RegistryState<C> {
    match op {
        Operation::Add { attached, content } => if state.is_full() {
            state
        } else {
            state.add(attached, content)
        },
        Operation::Activate { version, user } => state.activate(version, user),
        Operation::Deactivate => state.deactivate(),
    }
}

/// The identifier that an operation gives out: the next one for an addition
/// that succeeds, none for every other operation.
pub open spec fn issued<C>(state: RegistryState<C>, op: Operation<C>) -> Option<u64> {
    match op {
        Operation::Add { .. } => if state.is_full() {
            None
        } else {
            Some(state.next_version())
        },
        _ => None,
    }
}

/// The store after a run of operations, applied one after the other.
pub open spec fn run<C>(state: RegistryState<C>, ops: Seq<Operation<C>>) -> RegistryState<C>
    decreases ops.len(),
{
    if ops.len() == 0 {
        state
    } else {
        step(run(state, ops.drop_last()), ops.last())
    }
}

/// The identifier that the operation at place `at` of a run gives out.
pub open spec fn issued_at<C>(state: RegistryState<C>, ops: Seq<Operation<C>>, at: int) -> Option<
    u64,
>
    recommends
        0 <= at < ops.len(),
{
    issued(run(state, ops.take(at)), ops[at])
}

/// The empty store is well formed.
pub proof fn lemma_empty_wf<C>()
    ensures
        RegistryState::<C>::empty().wf(),
        RegistryState::<C>::empty().active_version().is_none(),
        RegistryState::<C>::empty().listing() == Map::<u64, Metadata>::empty(),
{
    assert(RegistryState::<C>::empty().listing() =~= Map::<u64, Metadata>::empty());
}

/// Every operation leaves a well-formed store well formed, keeps every
/// version that was there, unchanged and under its identifier, and removes
/// none.
pub proof fn lemma_step_keeps<C>(state: RegistryState<C>, op: Operation<C>)
    requires
        state.wf(),
    ensures
        step(state, op).wf(),
        state.records.len() <= step(state, op).records.len(),
        step(state, op).records.take(state.records.len() as int) == state.records,
        forall|version: u64| #[trigger]
            state.contains(version) ==> step(state, op).contains(version) && step(
                state,
                op,
            ).record(version) == state.record(version),
{
    assert(step(state, op).records.take(state.records.len() as int) =~= state.records);
}

/// What was added is found again: the new version is listed under the
/// identifier that the addition returned, with the attachment and the
/// content as they were submitted, and that identifier was not in use
/// before.
pub proof fn lemma_add_round_trip<C>(
    state: RegistryState<C>,
    attached: AttachedMetadata,
    content: C,
)
    requires
        state.wf(),
        !state.is_full(),
    ensures
        !state.contains(state.next_version()),
        state.add(attached, content).contains(state.next_version()),
        state.add(attached, content).record(state.next_version()).metadata.attached == attached,
        state.add(attached, content).record(state.next_version()).metadata.version
            == state.next_version(),
        state.add(attached, content).record(state.next_version()).content == content,
        state.add(attached, content).listing() == state.listing().insert(
            state.next_version(),
            Metadata { attached, version: state.next_version() },
        ),
        state.add(attached, content).active == state.active,
{
    assert(state.add(attached, content).listing() =~= state.listing().insert(
        state.next_version(),
        Metadata { attached, version: state.next_version() },
    ));
}

/// What was added stays as it was through whatever happens afterwards.
pub proof fn lemma_add_lasts<C>(
    state: RegistryState<C>,
    attached: AttachedMetadata,
    content: C,
    later: Seq<Operation<C>>,
)
    requires
        state.wf(),
        !state.is_full(),
    ensures
        run(state.add(attached, content), later).contains(state.next_version()),
        run(state.add(attached, content), later).record(state.next_version()).metadata.attached
            == attached,
        run(state.add(attached, content), later).record(state.next_version()).content == content,
{
    let added = state.add(attached, content);
    lemma_step_keeps(state, Operation::Add { attached, content });
    lemma_run_grows(added, later, 0);
    assert(later.take(0) =~= Seq::<Operation<C>>::empty());
    assert(later.take(later.len() as int) =~= later);
    let end = run(added, later);
    assert(end.records.take(added.records.len() as int)[state.records.len() as int]
        == added.records[state.records.len() as int]);
}

/// In a well-formed store no two versions share an identifier.
pub proof fn lemma_versions_unique<C>(state: RegistryState<C>, i: int, j: int)
    requires
        state.wf(),
        0 <= i < state.records.len(),
        0 <= j < state.records.len(),
        i != j,
    ensures
        state.records[i].metadata.version != state.records[j].metadata.version,
{
}

/// A run of operations leaves a well-formed store well formed, and what the
/// store held after a part of the run it still holds, unchanged, after the
/// whole.
pub proof fn lemma_run_grows<C>(state: RegistryState<C>, ops: Seq<Operation<C>>, at: int)
    requires
        state.wf(),
        0 <= at <= ops.len(),
    ensures
        run(state, ops.take(at)).wf(),
        run(state, ops).wf(),
        run(state, ops.take(at)).records.len() <= run(state, ops).records.len(),
        run(state, ops).records.take(run(state, ops.take(at)).records.len() as int) == run(
            state,
            ops.take(at),
        ).records,
    decreases ops.len(),
{
    if at == ops.len() {
        assert(ops.take(at) =~= ops);
        if ops.len() > 0 {
            lemma_run_grows(state, ops.drop_last(), 0);
            lemma_step_keeps(run(state, ops.drop_last()), ops.last());
        }
        assert(run(state, ops).records.take(run(state, ops).records.len() as int) =~= run(
            state,
            ops,
        ).records);
    } else {
        let shorter = ops.drop_last();
        lemma_run_grows(state, shorter, at);
        assert(shorter.take(at) =~= ops.take(at));
        lemma_step_keeps(run(state, shorter), ops.last());
        let part = run(state, ops.take(at)).records;
        let most = run(state, shorter).records;
        let all = run(state, ops).records;
        assert(all.take(part.len() as int) =~= all.take(most.len() as int).take(
            part.len() as int,
        ));
    }
}

/// However the operations on a store are ordered, no identifier is given
/// out twice: two additions of one run that succeed return different
/// identifiers, the later one the greater.
pub proof fn lemma_issued_distinct<C>(
    state: RegistryState<C>,
    ops: Seq<Operation<C>>,
    i: int,
    j: int,
)
    requires
        state.wf(),
        0 <= i < j < ops.len(),
        issued_at(state, ops, i).is_some(),
        issued_at(state, ops, j).is_some(),
    ensures
        issued_at(state, ops, i).unwrap() < issued_at(state, ops, j).unwrap(),
        issued_at(state, ops, i) != issued_at(state, ops, j),
{
    let upto = ops.take(j);
    lemma_run_grows(state, upto, i + 1);
    assert(upto.take(i + 1) =~= ops.take(i + 1));
    assert(ops.take(i + 1).drop_last() =~= ops.take(i));
    assert(ops.take(i + 1).last() == ops[i]);
    lemma_run_grows(state, ops.take(i + 1), i);
    assert(ops.take(i + 1).take(i) =~= ops.take(i));
}

/// An identifier that a run gives out was not in use when the run began.
pub proof fn lemma_issued_fresh<C>(state: RegistryState<C>, ops: Seq<Operation<C>>, at: int)
    requires
        state.wf(),
        0 <= at < ops.len(),
        issued_at(state, ops, at).is_some(),
    ensures
        !state.contains(issued_at(state, ops, at).unwrap()),
{
    lemma_run_grows(state, ops.take(at), 0);
    assert(ops.take(at).take(0) =~= Seq::<Operation<C>>::empty());
}

/// Activating a version that was added makes it the active one, in the name
/// of the user who asked, whatever was active before.
pub proof fn lemma_activate_marks<C>(state: RegistryState<C>, version: u64, user: User)
    requires
        state.contains(version),
    ensures
        state.activate(version, user).active_version() == Some(version),
        state.activate(version, user).activator() == Some(user),
        state.activate(version, user).records == state.records,
{
}

/// Activating a version that was never added changes nothing, the marker
/// least of all.
pub proof fn lemma_activate_unknown<C>(state: RegistryState<C>, version: u64, user: User)
    requires
        !state.contains(version),
    ensures
        state.activate(version, user) == state,
{
}

/// After deactivation no version is active and nobody is its activator; the
/// versions themselves are as before.
pub proof fn lemma_deactivate_clears<C>(state: RegistryState<C>)
    ensures
        state.deactivate().active_version().is_none(),
        state.deactivate().activator().is_none(),
        state.deactivate().records == state.records,
{
}

/// Deactivating a store in which no version is active changes nothing.
pub proof fn lemma_deactivate_idle<C>(state: RegistryState<C>)
    requires
        state.active_version().is_none(),
    ensures
        state.deactivate() == state,
{
}

/// There is an activator exactly when there is an active version, and the
/// active version is always one that was added.
pub proof fn lemma_marker_consistent<C>(state: RegistryState<C>)
    requires
        state.wf(),
    ensures
        state.activator().is_none() <==> state.active_version().is_none(),
        state.active_version() matches Some(version) ==> state.contains(version),
{
}

} // verus!
