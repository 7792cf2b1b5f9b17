use vstd::prelude::*;
use vstd::set_lib::lemma_len_subset;
use std::collections::HashSet;
use crate::helper::rand_id;

verus! {

/// Upper bound on how many identifiers one membership set may hold; the
/// allocator draws 32-bit identifiers, so the pool is exhausted beyond this.
pub const ID_POOL_LIMIT: u64 = 0xFFFF_FFFE;

/// The integers in `[lo, hi)`, as a set of `u64` values.
pub open spec fn u64_range(lo: u64, hi: u64) -> Set<u64> {
    Set::new(|x: u64| lo <= x < hi)
}

proof fn lemma_u64_range_len(lo: u64, hi: u64)
    requires
        lo <= hi,
    ensures
        u64_range(lo, hi).finite(),
        u64_range(lo, hi).len() == hi - lo,
    decreases hi - lo,
{
    if lo == hi {
        assert(u64_range(lo, hi) =~= Set::empty());
    } else {
        lemma_u64_range_len(lo, (hi - 1) as u64);
        assert(u64_range(lo, hi) =~= u64_range(lo, (hi - 1) as u64).insert((hi - 1) as u64));
    }
}

/// A non-zero identifier not yet present in `taken`. Random identifiers are
/// tried first; if they all collide, the smallest free identifier is used, and
/// one exists because the set is smaller than the pool.
pub fn fresh_id(taken: &HashSet<u64>) -> (r: u64)
    requires
        taken@.finite(),
        taken@.len() < ID_POOL_LIMIT,
    ensures
        r != 0,
        !taken@.contains(r),
{
    let mut attempts: u8 = 0;
    while attempts < 16
        invariant
            attempts <= 16,
        decreases 16 - attempts,
    {
        let id = rand_id();
        if !taken.contains(&id) {
            return id;
        }
        attempts = attempts + 1;
    }
    let ghost cap = taken@.len() as u64;
    let mut i: u64 = 1;
    loop
        invariant
            taken@.finite(),
            taken@.len() < ID_POOL_LIMIT,
            1 <= i <= cap + 1,
            cap == taken@.len(),
            forall|j: u64| 1 <= j < i ==> taken@.contains(j),
        decreases cap + 1 - i,
    {
        if !taken.contains(&i) {
            return i;
        }
        proof {
            assert(u64_range(1, (i + 1) as u64) <= taken@) by {
                assert(forall|j: u64| u64_range(1, (i + 1) as u64).contains(j)
                    ==> taken@.contains(j));
            }
            lemma_u64_range_len(1, (i + 1) as u64);
            lemma_len_subset(u64_range(1, (i + 1) as u64), taken@);
        }
        i = i + 1;
    }
}

/// The membership store shared between proxy instances: which session and
/// handle identifiers are live. Implementations may be in memory or remote.
pub trait ProxyStateProvider {
    /// The live session identifiers.
    spec fn sessions(&self) -> Set<u64>;

    /// The live handle identifiers.
    spec fn handles(&self) -> Set<u64>;

    /// Whether the store is in a usable state.
    spec fn wf(&self) -> bool;

    /// Allocates a fresh non-zero session identifier and inserts it.
    fn new_session(&mut self) -> (r: u64)
        requires
            old(self).wf(),
            old(self).sessions().len() < ID_POOL_LIMIT,
        ensures
            final(self).wf(),
            r != 0,
            !old(self).sessions().contains(r),
            final(self).sessions() == old(self).sessions().insert(r),
            final(self).handles() == old(self).handles(),
    ;

    /// Allocates a fresh non-zero handle identifier and inserts it.
    fn new_handle(&mut self) -> (r: u64)
        requires
            old(self).wf(),
            old(self).handles().len() < ID_POOL_LIMIT,
        ensures
            final(self).wf(),
            r != 0,
            !old(self).handles().contains(r),
            final(self).handles() == old(self).handles().insert(r),
            final(self).sessions() == old(self).sessions(),
    ;

    /// Whether a session identifier is live.
    fn has_session(&self, id: &u64) -> (r: bool)
        requires
            self.wf(),
        ensures
            r == self.sessions().contains(*id),
    ;

    /// Whether a handle identifier is live.
    fn has_handle(&self, id: &u64) -> (r: bool)
        requires
            self.wf(),
        ensures
            r == self.handles().contains(*id),
    ;

    /// Removes a session identifier; reports whether it was present.
    fn remove_session(&mut self, id: &u64) -> (r: bool)
        requires
            old(self).wf(),
        ensures
            final(self).wf(),
            r == old(self).sessions().contains(*id),
            final(self).sessions() == old(self).sessions().remove(*id),
            final(self).handles() == old(self).handles(),
    ;

    /// Removes a handle identifier; reports whether it was present.
    fn remove_handle(&mut self, id: &u64) -> (r: bool)
        requires
            old(self).wf(),
        ensures
            final(self).wf(),
            r == old(self).handles().contains(*id),
            final(self).handles() == old(self).handles().remove(*id),
            final(self).sessions() == old(self).sessions(),
    ;
}

/// The in-memory membership store: two sets of identifiers.
pub struct MemoryStateProvider {
    sessions: HashSet<u64>,
    // Handle ids must be unique within a session; they are kept globally
    // unique for simplicity.
    handles: HashSet<u64>,
}

impl MemoryStateProvider {
    pub fn new() -> (r: MemoryStateProvider)
        ensures
            r.wf(),
            r.sessions() == Set::<u64>::empty(),
            r.handles() == Set::<u64>::empty(),
    {
        MemoryStateProvider { sessions: HashSet::new(), handles: HashSet::new() }
    }
}

impl ProxyStateProvider for MemoryStateProvider {
    closed spec fn sessions(&self) -> Set<u64> {
        self.sessions@
    }

    closed spec fn handles(&self) -> Set<u64> {
        self.handles@
    }

    closed spec fn wf(&self) -> bool {
        self.sessions@.finite() && self.handles@.finite()
    }

    fn new_session(&mut self) -> (r: u64) {
        let id = fresh_id(&self.sessions);
        self.sessions.insert(id);
        id
    }

    fn new_handle(&mut self) -> (r: u64) {
        let id = fresh_id(&self.handles);
        self.handles.insert(id);
        id
    }

    fn has_session(&self, id: &u64) -> (r: bool) {
        self.sessions.contains(id)
    }

    fn has_handle(&self, id: &u64) -> (r: bool) {
        self.handles.contains(id)
    }

    fn remove_session(&mut self, id: &u64) -> (r: bool) {
        self.sessions.remove(id)
    }

    fn remove_handle(&mut self, id: &u64) -> (r: bool) {
        self.handles.remove(id)
    }
}

} // verus!
