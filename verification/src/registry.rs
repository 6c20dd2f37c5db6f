//! The instance registry: an owning table from opaque handles to objects.
//!
//! A handle is a nonzero 64-bit integer; zero is the reserved failure
//! sentinel. Handles are minted strictly counting up and are never reissued,
//! so a stale handle can never silently resolve to a different, unrelated
//! object. Removal is idempotent: releasing a stale or never-issued handle is
//! a no-op. The registry is a value; a process-wide instance is obtained by
//! placing one behind a synchronized container at the boundary, which
//! serializes the operations below.

use std::collections::HashMap;
use vstd::prelude::*;

verus! {

/// An object owned by the registry: a tagged variant per registrable kind, so
/// heterogeneous objects share one handle space and typed retrieval can fail
/// closed. Each variant records the decoded text payload the object was
/// constructed from.
pub enum RegisteredObject {
    BootstrapSpecs {
        adapter: statsig_rust::StatsigBootstrapSpecsAdapter,
        text: Ghost<Seq<char>>,
    },
}

impl RegisteredObject {
    /// The decoded text payload the object was constructed from.
    pub open spec fn payload(self) -> Seq<char> {
        match self {
            RegisteredObject::BootstrapSpecs { text, .. } => text@,
        }
    }
}

/// The registry table plus its handle allocator. Viewed as the map from live
/// handles to the objects they resolve to.
pub struct InstanceRegistry {
    table: HashMap<u64, RegisteredObject>,
    next_handle: u64,
    issued: Ghost<Set<u64>>,
}

impl View for InstanceRegistry {
    type V = Map<u64, RegisteredObject>;

    closed spec fn view(&self) -> Map<u64, RegisteredObject> {
        self.table@
    }
}

impl InstanceRegistry {
    /// Every handle this registry has ever issued, live or released.
    pub closed spec fn issued(&self) -> Set<u64> {
        self.issued@
    }

    /// The handle space is used up: no further handle can be minted.
    pub closed spec fn exhausted(&self) -> bool {
        self.next_handle == u64::MAX
    }

    /// Well-formedness: handles count up from one, every issued handle lies
    /// below the next one to mint, and only issued handles are live.
    pub closed spec fn wf(&self) -> bool {
        &&& 1 <= self.next_handle
        &&& forall|h: u64| self@.dom().contains(h) ==> #[trigger] self.issued@.contains(h)
        &&& forall|h: u64| #[trigger] self.issued@.contains(h) ==> 1 <= h < self.next_handle
    }

    /// An empty registry that has issued no handles yet.
    pub fn new() -> (r: InstanceRegistry)
        ensures
            r.wf(),
            r@ == Map::<u64, RegisteredObject>::empty(),
            r.issued() == Set::<u64>::empty(),
            !r.exhausted(),
    {
        InstanceRegistry {
            table: HashMap::new(),
            next_handle: 1,
            issued: Ghost(Set::empty()),
        }
    }

    /// The number of live objects.
    pub fn len(&self) -> (n: usize)
        ensures
            n == self@.len(),
    {
        self.table.len()
    }

    /// Takes ownership of an object, mints a never-previously-issued nonzero
    /// handle, and stores the object under it. Returns the zero sentinel
    /// exactly when the handle space is exhausted, in which case nothing
    /// changes.
    pub fn register(&mut self, obj: RegisteredObject) -> (h: u64)
        requires
            old(self).wf(),
        ensures
            final(self).wf(),
            h == 0 <==> old(self).exhausted(),
            h == 0 ==> final(self)@ == old(self)@ && final(self).issued() == old(self).issued()
                && final(self).exhausted(),
            h != 0 ==> {
                &&& !old(self).issued().contains(h)
                &&& !old(self)@.dom().contains(h)
                &&& final(self)@ == old(self)@.insert(h, obj)
                &&& final(self).issued() == old(self).issued().insert(h)
            },
    {
        if self.next_handle == u64::MAX {
            return 0;
        }
        let h = self.next_handle;
        self.next_handle = self.next_handle + 1;
        self.table.insert(h, obj);
        self.issued = Ghost(self.issued@.insert(h));
        h
    }

    /// Borrows the object behind a handle for the duration of the call;
    /// absent exactly when the handle is not live.
    pub fn get(&self, handle: u64) -> (r: Option<&RegisteredObject>)
        ensures
            r is Some <==> self@.dom().contains(handle),
            r matches Some(o) ==> *o == self@[handle],
    {
        self.table.get(&handle)
    }

    /// Borrows the bootstrap specs adapter behind a handle; absent when the
    /// handle is not live or the object behind it is not a bootstrap specs
    /// adapter, so typed retrieval fails closed instead of confusing types.
    pub fn get_bootstrap_specs(&self, handle: u64) -> (r: Option<
        &statsig_rust::StatsigBootstrapSpecsAdapter,
    >)
        ensures
            r is Some <==> (self@.dom().contains(handle) && self@[handle] is BootstrapSpecs),
            r matches Some(a) ==> *a == self@[handle]->adapter,
    {
        match self.get(handle) {
            Some(RegisteredObject::BootstrapSpecs { adapter, .. }) => Some(adapter),
            None => None,
        }
    }

    /// Removes the handle and drops the object behind it; reports whether
    /// anything was removed. A stale or never-issued handle is a silent
    /// no-op. A removed handle stays issued, so it is never minted again.
    pub fn remove(&mut self, handle: u64) -> (removed: bool)
        requires
            old(self).wf(),
        ensures
            final(self).wf(),
            removed <==> old(self)@.dom().contains(handle),
            final(self)@ == old(self)@.remove(handle),
            !final(self)@.dom().contains(handle),
            final(self).issued() == old(self).issued(),
            final(self).exhausted() == old(self).exhausted(),
    {
        let r = self.table.remove(&handle);
        r.is_some()
    }
}

/// Law: a live handle is nonzero and was issued by the registry, so the zero
/// failure sentinel can never resolve to an object.
pub proof fn lemma_live_handles_nonzero(r: InstanceRegistry, handle: u64)
    requires
        r.wf(),
        r@.dom().contains(handle),
    ensures
        handle != 0,
        r.issued().contains(handle),
{
}

/// Law: handles minted by successful registrations are pairwise distinct, in
/// whatever order a lock serializes the registrations. The first mints its
/// handle into the issued set; the set only ever grows from one operation to
/// the next; and the second mints a handle outside everything issued so far.
pub proof fn lemma_minted_handles_distinct(
    issued_after_first: Set<u64>,
    h1: u64,
    issued_before_second: Set<u64>,
    h2: u64,
)
    requires
        issued_after_first.contains(h1),
        issued_after_first.subset_of(issued_before_second),
        !issued_before_second.contains(h2),
    ensures
        h1 != h2,
{
}

/// Law: a stale handle never silently resolves to a different, unrelated
/// object. A handle live at some point is issued then; the issued set only
/// ever grows; and a later registration only mints a handle outside it. So
/// once its object is released the handle stays dead for good.
pub proof fn lemma_stale_handle_never_aliases(
    r_then: InstanceRegistry,
    handle: u64,
    issued_later: Set<u64>,
    minted: u64,
)
    requires
        r_then.wf(),
        r_then@.dom().contains(handle),
        r_then.issued().subset_of(issued_later),
        !issued_later.contains(minted),
    ensures
        minted != handle,
{
}

} // verus!
