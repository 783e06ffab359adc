//! Plain-value models of the ledger data the protocol reads: transactions,
//! certified ledger infos, and the epoch (validator-set) state that decides
//! which signatures are trusted.

use vstd::prelude::*;

use crate::error::SyncError;

verus! {

/// A committed transaction. The synchronization protocol never looks inside
/// a transaction: it only moves contiguous runs of them and counts versions.
#[derive(Clone, Copy, Debug, PartialEq, Eq, Structural)]
pub struct Transaction {
    pub payload: u64,
}

/// The validator set that must sign the next accepted ledger info: the epoch
/// number, the identities allowed to sign, and how many of them make quorum.
#[derive(Clone, Debug)]
pub struct EpochState {
    /// Epoch this validator set is authoritative for.
    pub epoch: u64,
    /// Identities of the validators of this epoch.
    pub validators: Vec<u64>,
    /// Number of distinct validator signatures that certify a ledger info.
    pub quorum: usize,
}

/// A statement of the ledger's state at `version`, produced in `epoch`.
/// A ledger info that ends its epoch embeds the next epoch's validator set.
#[derive(Clone, Debug)]
pub struct LedgerInfo {
    pub version: u64,
    pub epoch: u64,
    pub next_epoch_state: Option<EpochState>,
}

/// A ledger info together with the validator signatures that certify it.
/// `signatures` lists signer identities in strictly increasing order, which
/// makes them distinct by construction.
#[derive(Clone, Debug)]
pub struct LedgerInfoWithSignatures {
    pub ledger_info: LedgerInfo,
    pub signatures: Vec<u64>,
}

impl EpochState {
    /// A usable epoch state demands at least one signature for quorum, so an
    /// unsigned ledger info can never verify.
    pub open spec fn wf(self) -> bool {
        self.quorum >= 1
    }

    /// Two epoch states that agree on epoch number, validator identities and
    /// quorum are interchangeable: `valid_signatures` reads nothing else.
    pub open spec fn equiv(self, other: EpochState) -> bool {
        &&& self.epoch == other.epoch
        &&& self.validators@ == other.validators@
        &&& self.quorum == other.quorum
    }

    /// A copy that is provably interchangeable with the original.
    pub fn duplicate(&self) -> (r: EpochState)
        ensures
            r.equiv(*self),
    {
        EpochState {
            epoch: self.epoch,
            validators: self.validators.clone(),
            quorum: self.quorum,
        }
    }

    /// What it means for `li` to be certified under this epoch state:
    /// right epoch, a quorum of signers, every signer in the validator set,
    /// and signers strictly increasing (hence distinct).
    pub open spec fn valid_signatures(self, li: LedgerInfoWithSignatures) -> bool {
        &&& li.ledger_info.epoch == self.epoch
        &&& li.signatures@.len() >= self.quorum
        &&& forall|i: int|
            0 <= i < li.signatures@.len() ==> self.validators@.contains(#[trigger] li.signatures@[i])
        &&& forall|i: int|
            0 <= i && i + 1 < li.signatures@.len() ==> #[trigger] li.signatures@[i] < li.signatures@[i + 1]
    }

    /// Checks that `li`'s signatures meet quorum under this epoch state.
    /// This is the ledger-info verifier: side-effect-free, and failure is
    /// fatal only to the data being verified, never to the caller.
    pub fn verify(&self, li: &LedgerInfoWithSignatures) -> (r: Result<(), SyncError>)
        ensures
            r is Ok <==> self.valid_signatures(*li),
            r is Err ==> r == Err::<(), SyncError>(SyncError::VerificationError),
    {
        if li.ledger_info.epoch != self.epoch {
            return Err(SyncError::VerificationError);
        }
        if li.signatures.len() < self.quorum {
            return Err(SyncError::VerificationError);
        }
        let n = li.signatures.len();
        let mut k: usize = 0;
        while k < n
            invariant
                n == li.signatures@.len(),
                0 <= k <= n,
                forall|i: int|
                    0 <= i < k ==> self.validators@.contains(#[trigger] li.signatures@[i]),
                forall|i: int|
                    0 <= i && i + 1 < k ==> #[trigger] li.signatures@[i] < li.signatures@[i + 1],
            decreases n - k,
        {
            if !contains_id(&self.validators, li.signatures[k]) {
                return Err(SyncError::VerificationError);
            }
            if k > 0 && li.signatures[k - 1] >= li.signatures[k] {
                return Err(SyncError::VerificationError);
            }
            k += 1;
        }
        Ok(())
    }
}

/// Linear membership test over a vector of identities.
pub fn contains_id(v: &Vec<u64>, x: u64) -> (r: bool)
    ensures
        r == v@.contains(x),
{
    let mut k: usize = 0;
    while k < v.len()
        invariant
            0 <= k <= v@.len(),
            forall|i: int| 0 <= i < k ==> v@[i] != x,
        decreases v@.len() - k,
    {
        if v[k] == x {
            return true;
        }
        k += 1;
    }
    false
}

impl LedgerInfo {
    /// An epoch-ending ledger info announces the next epoch's validator set
    /// under the successor epoch number; epochs therefore never wrap.
    pub open spec fn wf(self) -> bool {
        self.next_epoch_state matches Some(next) ==> {
            &&& self.epoch < u64::MAX
            &&& next.epoch == self.epoch + 1
            &&& next.wf()
        }
    }

    /// Whether this ledger info marks an epoch boundary.
    pub open spec fn ends_epoch(self) -> bool {
        self.next_epoch_state is Some
    }
}

impl LedgerInfoWithSignatures {
    pub open spec fn wf(self) -> bool {
        self.ledger_info.wf()
    }

    pub open spec fn version(self) -> u64 {
        self.ledger_info.version
    }

    pub open spec fn epoch(self) -> u64 {
        self.ledger_info.epoch
    }
}

} // verus!
