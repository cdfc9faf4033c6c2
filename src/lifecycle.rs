//! The lifecycle rules: the states of a model instance, and the count of
//! holders that decides when a library may be unloaded.
//!
//! A library is held by the caller's handle (and each clone of it) and by every
//! live instance built from it. It is unloaded when, and only when, the last
//! holder lets go: an instance's destructor lives in the library's code, so
//! the code must stay mapped while any instance exists. The types here are a
//! model of that rule, with its laws proved; the host realises the count with
//! atomic reference counting and does not drive these types.
use vstd::prelude::*;

verus! {

/// The states of one model instance. No transition leads back to `Live`.
#[derive(Clone, Copy, Debug, PartialEq, Eq, Structural)]
pub enum InstanceState {
    Uninitialized,
    Live,
    Gone,
}

impl InstanceState {
    /// Destroying a live instance ends it; it runs the foreign destructor once.
    pub fn after_destroy(self) -> (r: InstanceState)
        requires
            self is Live,
        ensures
            r is Gone,
    {
        InstanceState::Gone
    }
}

/// The unload decisions made by `k` successive releases, starting with
/// `holders` holders: entry `i` tells whether release `i` unloads the library.
pub open spec fn release_run(holders: nat, k: nat) -> Seq<bool>
    decreases k,
{
    if k == 0 {
        Seq::empty()
    } else {
        seq![holders == 1] + release_run((holders - 1) as nat, (k - 1) as nat)
    }
}

/// The number of holders of one loaded library.
pub struct LibraryRefs {
    holders: u64,
}

impl LibraryRefs {
    pub closed spec fn holders_spec(&self) -> nat {
        self.holders as nat
    }

    /// Whether the library has been unloaded.
    pub open spec fn unloaded(&self) -> bool {
        self.holders_spec() == 0
    }

    /// A library just opened: the caller's handle is its only holder.
    pub fn opened() -> (r: LibraryRefs)
        ensures
            r.holders_spec() == 1,
    {
        LibraryRefs { holders: 1 }
    }

    pub fn holders(&self) -> (r: u64)
        ensures
            r == self.holders_spec(),
    {
        self.holders
    }

    /// Cloning a handle adds a holder; it does not open the library again.
    pub fn share(&mut self)
        requires
            0 < old(self).holders_spec() < u64::MAX,
        ensures
            final(self).holders_spec() == old(self).holders_spec() + 1,
    {
        self.holders = self.holders + 1;
    }

    /// Records a construction through a handle: a produced instance becomes a
    /// holder; a failed one leaves the count as it was, so a later open or
    /// construction sees nothing of it.
    pub fn construct(&mut self, produced: bool) -> (r: InstanceState)
        requires
            0 < old(self).holders_spec() < u64::MAX,
        ensures
            produced ==> r is Live && final(self).holders_spec() == old(self).holders_spec() + 1,
            !produced ==> r is Gone && final(self).holders_spec() == old(self).holders_spec(),
    {
        if produced {
            self.holders = self.holders + 1;
            InstanceState::Live
        } else {
            InstanceState::Gone
        }
    }

    /// A holder lets go: a handle is dropped or an instance destroyed. The
    /// result tells whether this release unloads the library.
    pub fn release(&mut self) -> (unload: bool)
        requires
            old(self).holders_spec() > 0,
        ensures
            final(self).holders_spec() == old(self).holders_spec() - 1,
            unload == release_run(old(self).holders_spec(), 1)[0],
            unload <==> final(self).unloaded(),
    {
        self.holders = self.holders - 1;
        self.holders == 0
    }
}

/// Of `k` releases from `holders` holders, exactly the one that takes the
/// count to zero unloads.
pub proof fn release_run_unloads_at_zero(holders: nat, k: nat)
    requires
        k <= holders,
    ensures
        release_run(holders, k).len() == k,
        forall|i: int| 0 <= i < k ==> (#[trigger] release_run(holders, k)[i] <==> holders - i == 1),
    decreases k,
{
    if k > 0 {
        release_run_unloads_at_zero((holders - 1) as nat, (k - 1) as nat);
        let rest = release_run((holders - 1) as nat, (k - 1) as nat);
        assert forall|i: int| 0 <= i < k implies (#[trigger] release_run(holders, k)[i] <==> holders - i == 1) by {
            if i > 0 {
                assert(release_run(holders, k)[i] == rest[i - 1]);
            }
        }
    }
}

/// A library held by its handle and by `instances` live instances stays
/// loaded while the instances are destroyed and the handle is dropped, one
/// release at a time, until the very last release, which unloads it. The
/// releases carry no identity, so this holds whatever order the instances are
/// destroyed in and whether the handle goes first, last or in between.
pub proof fn unloads_only_at_last_release(instances: nat)
    ensures
        release_run(instances + 1, instances + 1).len() == instances + 1,
        forall|i: int|
            0 <= i <= instances ==> (#[trigger] release_run(instances + 1, instances + 1)[i] <==> i
                == instances),
{
    release_run_unloads_at_zero(instances + 1, instances + 1);
}

} // verus!
