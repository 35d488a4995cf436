//! The vault's persisted state and the actions that may be taken on it.

use vstd::prelude::*;

verus! {

/// The record that describes one vault.
///
/// Over the lifetime of a vault the two keys and the timeout never change, and
/// the heartbeat only moves forward.
#[derive(Debug, Clone, Copy, PartialEq, Eq)]
pub struct VaultState {
    /// Public-key identifier of the owner, who may pulse.
    pub owner_pubkey: [u8; 32],
    /// Public-key identifier of the heir, who may claim.
    pub heir_pubkey: [u8; 32],
    /// Block height of the most recent proof of liveness.
    pub last_heartbeat: u64,
    /// Number of blocks after the last heartbeat from which the vault is
    /// claimable.
    pub timeout_blocks: u64,
}

/// What the caller declares it is doing with the vault.
#[derive(Debug, Clone, Copy, PartialEq, Eq)]
pub enum Action {
    /// Create a vault with the given keys and timeout.
    Initialize { owner_pubkey: [u8; 32], heir_pubkey: [u8; 32], timeout_blocks: u64 },
    /// The owner proves liveness and moves the heartbeat forward.
    Pulse,
    /// The heir takes the vault over; the vault ceases to exist.
    Claim,
}

/// Whether two 32-byte keys are bit-for-bit identical.
pub fn same_key(a: &[u8; 32], b: &[u8; 32]) -> (same: bool)
    ensures
        same == (*a == *b),
{
    let mut i: usize = 0;
    while i < 32
        invariant
            i <= 32,
            forall|j: int| 0 <= j < i ==> a[j] == b[j],
        decreases 32 - i,
    {
        if a[i] != b[i] {
            return false;
        }
        i += 1;
    }
    assert(*a =~= *b);
    true
}

impl VaultState {
    /// A freshly created vault is in this state exactly if it carries the
    /// declared keys and timeout and its heartbeat is set. A heartbeat of zero
    /// counts as unset.
    pub open spec fn opens_with(
        self,
        owner_pubkey: [u8; 32],
        heir_pubkey: [u8; 32],
        timeout_blocks: u64,
    ) -> bool {
        &&& self.owner_pubkey == owner_pubkey
        &&& self.heir_pubkey == heir_pubkey
        &&& self.timeout_blocks == timeout_blocks
        &&& self.last_heartbeat != 0
    }

    /// This state may follow `prior` under a pulse exactly if keys and timeout
    /// are unchanged and the heartbeat is strictly later.
    pub open spec fn renews(self, prior: VaultState) -> bool {
        &&& self.owner_pubkey == prior.owner_pubkey
        &&& self.heir_pubkey == prior.heir_pubkey
        &&& self.timeout_blocks == prior.timeout_blocks
        &&& self.last_heartbeat > prior.last_heartbeat
    }

    /// The vault is claimable at block height `height` exactly if `height`
    /// exceeds the last heartbeat by more than the timeout.
    pub open spec fn claimable_at(self, height: u64) -> bool {
        height > self.last_heartbeat + self.timeout_blocks
    }

    /// Decides [`VaultState::opens_with`].
    pub fn is_opening(
        &self,
        owner_pubkey: &[u8; 32],
        heir_pubkey: &[u8; 32],
        timeout_blocks: u64,
    ) -> (ok: bool)
        ensures
            ok == self.opens_with(*owner_pubkey, *heir_pubkey, timeout_blocks),
    {
        same_key(&self.owner_pubkey, owner_pubkey) && same_key(&self.heir_pubkey, heir_pubkey)
            && self.timeout_blocks == timeout_blocks && self.last_heartbeat != 0
    }

    /// Decides [`VaultState::claimable_at`].
    pub fn is_claimable_at(&self, height: u64) -> (claimable: bool)
        ensures
            claimable == self.claimable_at(height),
    {
        match self.last_heartbeat.checked_add(self.timeout_blocks) {
            Some(limit) => height > limit,
            None => false,
        }
    }

    /// Decides [`VaultState::renews`].
    pub fn is_renewal_of(&self, prior: &VaultState) -> (ok: bool)
        ensures
            ok == self.renews(*prior),
    {
        same_key(&self.owner_pubkey, &prior.owner_pubkey) && same_key(
            &self.heir_pubkey,
            &prior.heir_pubkey,
        ) && self.timeout_blocks == prior.timeout_blocks && self.last_heartbeat
            > prior.last_heartbeat
    }
}

} // verus!
