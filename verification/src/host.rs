//! What the contracts know of the network they run on.

use vstd::prelude::*;

verus! {

/// Approximate number of ledgers per day, assuming 5 second ledger close times.
pub const LEDGERS_PER_DAY: u32 = 17280;

/// When the instance storage TTL drops below this threshold, extend it.
pub const TTL_THRESHOLD: u32 = 30 * LEDGERS_PER_DAY;

/// The TTL to extend the instance storage to.
pub const TTL_EXTEND_TO: u32 = 60 * LEDGERS_PER_DAY;

/// The address of a party: an account, by its ed25519 public key, or a
/// contract, by its identifier.
#[derive(Clone, Copy, Debug, PartialEq, Eq)]
pub enum Address {
    Account([u8; 32]),
    Contract([u8; 32]),
}

/// The surroundings of one contract invocation: the contract that runs, the
/// ledger it runs in and the network that ledger belongs to.
#[derive(Clone, Copy, Debug, PartialEq, Eq)]
pub struct Context {
    pub contract: Address,
    pub sequence: u32,
    pub network_id: [u8; 32],
}

/// A contract by how it is deployed: the contract that `deployer` puts (or would
/// put) on the network under `salt`.
#[derive(Clone, Copy, Debug, PartialEq, Eq)]
pub struct Deployment {
    pub deployer: Address,
    pub salt: [u8; 32],
}

/// An address and the network that it is an address on.
#[derive(Clone, Copy, Debug, PartialEq, Eq)]
pub struct NetworkAddress {
    pub network_id: [u8; 32],
    pub address: Address,
}

/// Whether two byte strings of the same fixed length are equal.
pub fn bytes_equal<const N: usize>(a: &[u8; N], b: &[u8; N]) -> (equal: bool)
    ensures
        equal == (*a == *b),
{
    let mut i: usize = 0;
    while i < N
        invariant
            i <= N,
            forall|j: int| 0 <= j < i ==> a@[j] == b@[j],
        decreases N - i,
    {
        if a[i] != b[i] {
            return false;
        }
        i += 1;
    }
    assert(*a =~= *b);
    true
}

/// The `N` bytes of `bytes` from `start` on.
pub fn array_at<const N: usize>(bytes: &[u8], start: usize) -> (part: [u8; N])
    requires
        start + N <= bytes@.len(),
    ensures
        part@ == bytes@.subrange(start as int, start + N),
{
    let end: usize = bytes.len();
    let mut part: [u8; N] = [0u8; N];
    let mut i: usize = 0;
    while i < N
        invariant
            i <= N,
            start + N <= end,
            end == bytes@.len(),
            forall|j: int| 0 <= j < i ==> part@[j] == bytes@[start + j],
        decreases N - i,
    {
        part[i] = bytes[start + i];
        i += 1;
    }
    assert(part@ =~= bytes@.subrange(start as int, start + N));
    part
}

} // verus!
