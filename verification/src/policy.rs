//! The publishing policy: which scripts may run and which accounts may
//! publish modules. A locked ledger runs whitelisted scripts only, compared
//! by the exact bytes of their content hash.

use vstd::prelude::*;
use crate::crypto::bytes_eq;

verus! {

/// The active publishing policy of the ledger.
#[derive(Clone, Debug)]
pub enum PublishingPolicy {
    /// Only scripts whose content hash stands in the whitelist run; module
    /// publishing is reserved to the privileged root account.
    Locked(Vec<Vec<u8>>),
    /// Any script deserializes and runs; module publishing is still reserved
    /// to the privileged root account.
    CustomScripts,
    /// Any script runs, and any account may publish a module under its own
    /// address.
    Open,
}

/// The views of a list of byte strings.
pub open spec fn spec_digests_view(wl: Seq<Vec<u8>>) -> Seq<Seq<u8>> {
    Seq::new(wl.len(), |i: int| wl[i]@)
}

/// Whether a digest stands in a whitelist, by exact byte equality.
pub open spec fn spec_whitelist_contains(wl: Seq<Seq<u8>>, digest: Seq<u8>) -> bool {
    exists|i: int| 0 <= i < wl.len() && wl[i] == digest
}

/// Linear scan of the whitelist for a digest, by exact byte equality.
pub fn whitelist_contains(wl: &Vec<Vec<u8>>, digest: &[u8]) -> (r: bool)
    ensures
        r == spec_whitelist_contains(spec_digests_view(wl@), digest@),
{
    let mut i: usize = 0;
    while i < wl.len()
        invariant
            i <= wl@.len(),
            forall|j: int| 0 <= j < i ==> wl@[j]@ != digest@,
        decreases wl@.len() - i,
    {
        if bytes_eq(wl[i].as_slice(), digest) {
            assert(spec_digests_view(wl@)[i as int] == digest@);
            return true;
        }
        i = i + 1;
    }
    assert(forall|j: int| 0 <= j < wl@.len() ==> spec_digests_view(wl@)[j] != digest@);
    false
}

} // verus!
