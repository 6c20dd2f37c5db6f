//! The boundary surface for the bootstrap specs adapter.
//!
//! A foreign caller hands the constructor a byte buffer (already turned into a
//! plain slice by the unmanaged-side shim; an absent buffer stands for a null
//! pointer) and receives an opaque handle, zero on any failure. The destructor
//! releases the handle unconditionally and is safe on stale or never-issued
//! handles.

use vstd::prelude::*;

verus! {

use crate::adapter::new_bootstrap_adapter;
use crate::registry::{InstanceRegistry, RegisteredObject};
use crate::text::{decode_utf8, utf8_decoded};

/// Whether a boundary byte buffer is accepted: present, nonempty, and valid
/// UTF-8 text.
pub open spec fn accepted_input(data: Option<Seq<u8>>) -> bool {
    &&& data is Some
    &&& data.unwrap().len() > 0
    &&& utf8_decoded(data.unwrap()) is Some
}

/// The byte buffer as the specification sees it.
pub open spec fn spec_input(data: Option<&[u8]>) -> Option<Seq<u8>> {
    match data {
        Some(b) => Some(b@),
        None => None,
    }
}

/// Validates the byte buffer, constructs the bootstrap specs adapter from the
/// decoded text, and registers it. Returns the zero sentinel exactly when the
/// input is rejected (absent, empty, or not valid UTF-8) or registration
/// fails for exhaustion; in that case the registry is unchanged.
pub fn statsig_bootstrap_specs_adapter_create_from_bytes(
    registry: &mut InstanceRegistry,
    data: Option<&[u8]>,
) -> (h: u64)
    requires
        old(registry).wf(),
    ensures
        final(registry).wf(),
        h != 0 <==> (accepted_input(spec_input(data)) && !old(registry).exhausted()),
        h == 0 ==> final(registry)@ == old(registry)@ && final(registry).issued() == old(
            registry,
        ).issued() && final(registry).exhausted() == old(registry).exhausted(),
        h != 0 ==> {
            &&& !old(registry).issued().contains(h)
            &&& !old(registry)@.dom().contains(h)
            &&& final(registry).issued() == old(registry).issued().insert(h)
            &&& final(registry)@.dom() == old(registry)@.dom().insert(h)
            &&& forall|k: u64|
                k != h && old(registry)@.dom().contains(k) ==> final(registry)@[k] == #[trigger] old(
                    registry,
                )@[k]
            &&& final(registry)@[h] is BootstrapSpecs
            &&& final(registry)@[h].payload() == utf8_decoded(data.unwrap()@).unwrap()
        },
{
    let bytes: &[u8] = match data {
        Some(b) => b,
        None => {
            return 0;
        },
    };
    if bytes.len() == 0 {
        return 0;
    }
    let text: String = match decode_utf8(bytes) {
        Some(s) => s,
        None => {
            return 0;
        },
    };
    let ghost payload: Seq<char> = text@;
    let adapter = new_bootstrap_adapter(text);
    let obj = RegisteredObject::BootstrapSpecs { adapter, text: Ghost(payload) };
    registry.register(obj)
}

/// Unconditionally releases the handle: the object behind it, if any, is
/// removed and dropped. Safe, and a no-op, on a stale or never-issued handle.
pub fn statsig_bootstrap_specs_adapter_release(registry: &mut InstanceRegistry, handle: u64)
    requires
        old(registry).wf(),
    ensures
        final(registry).wf(),
        final(registry)@ == old(registry)@.remove(handle),
        !final(registry)@.dom().contains(handle),
        final(registry).issued() == old(registry).issued(),
{
    registry.remove(handle);
}

/// Law: a handle minted for an accepted buffer is releasable. The release
/// finds the handle live, removes exactly the object registered for it, and
/// restores the registry to its prior state.
pub proof fn lemma_create_then_release(
    r0: InstanceRegistry,
    h: u64,
    r1: InstanceRegistry,
    r2: InstanceRegistry,
)
    requires
        h != 0,
        !r0@.dom().contains(h),
        r1@.dom() == r0@.dom().insert(h),
        forall|k: u64| k != h && r0@.dom().contains(k) ==> r1@[k] == #[trigger] r0@[k],
        r2@ == r1@.remove(h),
    ensures
        r1@.dom().contains(h),
        !r2@.dom().contains(h),
        r2@ == r0@,
{
    assert(r2@ =~= r0@);
}

/// Law: releasing the same previously-valid handle twice is safe both times:
/// the second release finds nothing and leaves the registry exactly as the
/// first one left it.
pub proof fn lemma_release_idempotent(
    r0: InstanceRegistry,
    handle: u64,
    r1: InstanceRegistry,
    r2: InstanceRegistry,
)
    requires
        r1@ == r0@.remove(handle),
        r2@ == r1@.remove(handle),
    ensures
        !r1@.dom().contains(handle),
        r2@ == r1@,
{
    assert(r2@ =~= r1@);
}

/// Law: releasing a handle the registry never issued is safe and a no-op.
pub proof fn lemma_release_never_issued_noop(
    r0: InstanceRegistry,
    handle: u64,
    r1: InstanceRegistry,
)
    requires
        r0.wf(),
        !r0.issued().contains(handle),
        r1@ == r0@.remove(handle),
    ensures
        r1@ == r0@,
{
    if r0@.dom().contains(handle) {
        crate::registry::lemma_live_handles_nonzero(r0, handle);
    }
    assert(r1@ =~= r0@);
}

} // verus!
