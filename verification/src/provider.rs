//! One-time publication of a resolved snapshot, and lazily memoized
//! derived paths computed from it.

use vstd::prelude::*;
use crate::resolve::ProjectDirsOrEnv;

verus! {

/// A second initialization was attempted after a successful first one —
/// a programming error (double bootstrap), not an environmental fault.
#[derive(Debug)]
#[non_exhaustive]
pub struct AlreadyInitializedError;

/// Write-once storage for the resolved snapshot. Starts empty, accepts
/// exactly one snapshot, and rejects every later attempt; once published,
/// the snapshot is only ever read.
pub struct LocationProvider {
    slot: Option<ProjectDirsOrEnv>,
}

impl LocationProvider {
    /// The published snapshot, if one has been published.
    pub closed spec fn snapshot(&self) -> Option<ProjectDirsOrEnv> {
        self.slot
    }

    /// A snapshot has been published.
    pub open spec fn is_initialized(&self) -> bool {
        self.snapshot() is Some
    }

    /// Empty storage: nothing published yet.
    pub fn new() -> (r: Self)
        ensures
            !r.is_initialized(),
    {
        LocationProvider { slot: None }
    }

    /// Publish a snapshot. The first call succeeds and stores it; any call
    /// after a success is rejected and changes nothing.
    pub fn initialize(&mut self, snapshot: ProjectDirsOrEnv) -> (r: Result<
        (),
        AlreadyInitializedError,
    >)
        ensures
            !old(self).is_initialized() ==> (r is Ok && final(self).snapshot() == Some(snapshot)),
            old(self).is_initialized() ==> (r is Err && *final(self) == *old(self)),
    {
        match &self.slot {
            Some(_) => Err(AlreadyInitializedError),
            None => {
                self.slot = Some(snapshot);
                Ok(())
            },
        }
    }

    /// The published snapshot: the same value on every call, untouched
    /// since publication.
    pub fn get(&self) -> (r: Option<&ProjectDirsOrEnv>)
        ensures
            r is Some <==> self.is_initialized(),
            r matches Some(s) ==> self.snapshot() == Some(*s),
    {
        match &self.slot {
            Some(s) => Some(s),
            None => None,
        }
    }
}

/// A lazily memoized derived path: the first access stores the computed
/// value, every later access returns the stored value unchanged, whatever
/// is offered then.
pub struct MemoizedPath {
    cached: Option<String>,
}

impl MemoizedPath {
    /// The cached value, if one has been stored.
    pub closed spec fn cached(&self) -> Option<Seq<char>> {
        match self.cached {
            Some(s) => Some(s@),
            None => None,
        }
    }

    /// An empty cell: nothing computed yet.
    pub fn new() -> (r: Self)
        ensures
            r.cached() is None,
    {
        MemoizedPath { cached: None }
    }

    /// Return the cached value, or store and return `value` if the cell is
    /// still empty. After the first call the result never changes.
    pub fn get_or_compute(&mut self, value: String) -> (r: String)
        ensures
            old(self).cached() is None ==> (final(self).cached() == Some(value@) && r@ == value@),
            old(self).cached() matches Some(v) ==> (*final(self) == *old(self) && r@ == v),
    {
        match &self.cached {
            Some(s) => {
                let r = s.clone();
                return r;
            },
            None => {},
        }
        let out = value.clone();
        self.cached = Some(value);
        out
    }
}

} // verus!
