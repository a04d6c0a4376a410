//! The quorum that gates admin operations.
//!
//! Each admin signs the hash of the instruction it wants run. Signatures
//! on the same hash accumulate; a signature on another hash starts over.
//! The operation runs once the count reaches `min_signatures`.

use vstd::prelude::*;

use crate::address::Address;
use crate::error::LaunchpadError;

verus! {

/// Most admins a quorum can have.
pub const MAX_SIGNERS: usize = 6;

#[derive(Clone, Debug)]
pub struct Multisig {
    pub signers: Vec<Address>,
    /// Which signers have signed the pending instruction.
    pub signed: Vec<bool>,
    pub min_signatures: u8,
    pub num_signed: u8,
    /// Hash of the instruction being signed.
    pub instruction_hash: u64,
    pub bump: u8,
}

/// The index of the first of `signers` that is `a`.
pub open spec fn first_index(signers: Seq<Address>, a: Address, i: int) -> bool {
    0 <= i < signers.len() && signers[i]@ == a@ && forall|j: int| 0 <= j < i ==> #[trigger] signers[j]@ != a@
}

/// Whether `a` is one of `signers`.
pub open spec fn is_signer(signers: Seq<Address>, a: Address) -> bool {
    exists|j: int| 0 <= j < signers.len() && #[trigger] signers[j]@ == a@
}

proof fn lemma_chosen_index(signers: Seq<Address>, a: Address, idx: int)
    requires
        first_index(signers, a, idx),
    ensures
        (choose|i: int| first_index(signers, a, i)) == idx,
        is_signer(signers, a),
{
    let c = choose|i: int| first_index(signers, a, i);
    assert(first_index(signers, a, c));
    if c < idx {
        assert(signers[c]@ != a@);
    } else if c > idx {
        assert(signers[idx]@ != a@);
    }
}

/// The quorum step went as `Multisig::approve` promises: a refused
/// signature, or an operation `blocked` once no signature is missing,
/// leaves the quorum as it was; otherwise the signature is recorded and `r`
/// is the count still needed.
pub open spec fn quorum_outcome(
    before: Multisig,
    after: Multisig,
    signer: Address,
    hash: u64,
    blocked: Option<LaunchpadError>,
    r: Result<u8, LaunchpadError>,
) -> bool {
    match before.spec_sign_result(signer, hash) {
        Err(e) => r == Err::<u8, LaunchpadError>(e) && after == before,
        Ok(k) => if k == 0 && blocked is Some {
            r == Err::<u8, LaunchpadError>(blocked->0) && after == before
        } else {
            r == Ok::<u8, LaunchpadError>(k) && before.spec_after_sign(after, signer, hash)
        },
    }
}

impl Multisig {
    /// What signing the instruction with hash `hash` as `signer` returns:
    /// the signatures still needed, or why the signature is refused.
    pub open spec fn spec_sign_result(&self, signer: Address, hash: u64) -> Result<u8, LaunchpadError> {
        let i = choose|i: int| first_index(self.signers@, signer, i);
        if !is_signer(self.signers@, signer) {
            Err(LaunchpadError::MultisigAccountNotAuthorized)
        } else if self.signers.len() <= 1 {
            Ok(0)
        } else if hash != self.instruction_hash {
            Ok((self.min_signatures - 1) as u8)
        } else if self.signed@[i] {
            Err(LaunchpadError::MultisigAlreadySigned)
        } else if self.num_signed < self.min_signatures {
            Ok((self.min_signatures - self.num_signed - 1) as u8)
        } else {
            Err(LaunchpadError::MultisigAlreadyExecuted)
        }
    }

    /// `after` is this quorum once `signer` has signed the instruction with
    /// hash `hash`: a new hash starts the count over.
    pub open spec fn spec_after_sign(&self, after: Multisig, signer: Address, hash: u64) -> bool {
        let i = choose|i: int| first_index(self.signers@, signer, i);
        &&& after.signers@ == self.signers@
        &&& after.min_signatures == self.min_signatures
        &&& after.bump == self.bump
        &&& if self.signers.len() <= 1 {
            after.signed@ == self.signed@ && after.num_signed == self.num_signed
                && after.instruction_hash == self.instruction_hash
        } else if hash != self.instruction_hash {
            after.signed@ == Seq::new(self.signed.len() as nat, |j: int| j == i) && after.num_signed == 1
                && after.instruction_hash == hash
        } else {
            after.signed@ == self.signed@.update(i, true) && after.num_signed == self.num_signed + 1
                && after.instruction_hash == hash
        }
    }

    pub open spec fn well_formed(&self) -> bool {
        &&& self.signers.len() == self.signed.len()
        &&& 0 < self.signers.len() <= MAX_SIGNERS
        &&& 1 <= self.min_signatures <= self.signers.len()
        &&& self.num_signed <= self.min_signatures
    }

    /// A quorum of `signers` that needs `min_signatures` of them, with
    /// nothing signed yet. There must be between one and `MAX_SIGNERS`
    /// signers and `min_signatures` must be at least one and at most their
    /// number.
    pub fn new(signers: &Vec<Address>, min_signatures: u8, bump: u8) -> (r: Result<Multisig, LaunchpadError>)
        ensures
            signers.len() == 0 ==> r == Err::<Multisig, LaunchpadError>(LaunchpadError::NotEnoughAccountKeys),
            signers.len() > MAX_SIGNERS ==> r == Err::<Multisig, LaunchpadError>(LaunchpadError::TooManyAccountKeys),
            0 < signers.len() <= MAX_SIGNERS && (min_signatures == 0 || min_signatures > signers.len())
                ==> r == Err::<Multisig, LaunchpadError>(LaunchpadError::InvalidLaunchpadConfig),
            r is Ok <==> (0 < signers.len() <= MAX_SIGNERS && 1 <= min_signatures <= signers.len()),
            match r {
                Ok(m) => {
                    &&& m.well_formed()
                    &&& m.signers@ == signers@
                    &&& m.signed@ == Seq::new(signers.len() as nat, |j: int| false)
                    &&& m.min_signatures == min_signatures
                    &&& m.num_signed == 0
                    &&& m.instruction_hash == 0
                    &&& m.bump == bump
                },
                Err(_) => true,
            },
    {
        if signers.len() == 0 {
            return Err(LaunchpadError::NotEnoughAccountKeys);
        }
        if signers.len() > MAX_SIGNERS {
            return Err(LaunchpadError::TooManyAccountKeys);
        }
        if min_signatures == 0 || min_signatures as usize > signers.len() {
            return Err(LaunchpadError::InvalidLaunchpadConfig);
        }
        let mut copied: Vec<Address> = Vec::new();
        let mut signed: Vec<bool> = Vec::new();
        let mut i: usize = 0;
        while i < signers.len()
            invariant
                i <= signers.len(),
                copied@ == signers@.subrange(0, i as int),
                signed@ == Seq::new(i as nat, |j: int| false),
            decreases signers.len() - i,
        {
            copied.push(signers[i]);
            signed.push(false);
            i = i + 1;
            assert(copied@ =~= signers@.subrange(0, i as int));
            assert(signed@ =~= Seq::new(i as nat, |j: int| false));
        }
        assert(copied@ =~= signers@);
        Ok(Multisig { signers: copied, signed, min_signatures, num_signed: 0, instruction_hash: 0, bump })
    }

    /// The position of `a` among the signers, if it is one.
    pub fn get_signer_index(&self, a: &Address) -> (r: Option<usize>)
        ensures
            match r {
                Some(i) => first_index(self.signers@, *a, i as int),
                None => !is_signer(self.signers@, *a),
            },
    {
        let mut i: usize = 0;
        while i < self.signers.len()
            invariant
                i <= self.signers.len(),
                forall|j: int| 0 <= j < i ==> #[trigger] self.signers@[j]@ != a@,
            decreases self.signers.len() - i,
        {
            if self.signers[i] == *a {
                return Some(i);
            }
            i = i + 1;
        }
        None
    }

    /// Records the signature of `signer` on the instruction with hash
    /// `instruction_hash` and returns how many signatures are still needed:
    /// zero means the instruction may run. A lone admin needs no count.
    pub fn sign_multisig(&mut self, signer: &Address, instruction_hash: u64) -> (r: Result<u8, LaunchpadError>)
        requires
            old(self).well_formed(),
        ensures
            final(self).well_formed(),
            final(self).signers@ == old(self).signers@,
            final(self).min_signatures == old(self).min_signatures,
            final(self).bump == old(self).bump,
            !is_signer(old(self).signers@, *signer) ==> r == Err::<u8, LaunchpadError>(
                LaunchpadError::MultisigAccountNotAuthorized),
            r is Err ==> *final(self) == *old(self),
            r == old(self).spec_sign_result(*signer, instruction_hash),
            r is Ok ==> old(self).spec_after_sign(*final(self), *signer, instruction_hash),
            forall|i: int| #[trigger] first_index(old(self).signers@, *signer, i) ==> {
                if old(self).signers.len() <= 1 {
                    r == Ok::<u8, LaunchpadError>(0) && *final(self) == *old(self)
                } else if instruction_hash != old(self).instruction_hash {
                    &&& r == Ok::<u8, LaunchpadError>((old(self).min_signatures - 1) as u8)
                    &&& final(self).signed@ == Seq::new(old(self).signed.len() as nat, |j: int| j == i)
                    &&& final(self).num_signed == 1
                    &&& final(self).instruction_hash == instruction_hash
                } else if old(self).signed@[i] {
                    r == Err::<u8, LaunchpadError>(LaunchpadError::MultisigAlreadySigned)
                } else if old(self).num_signed < old(self).min_signatures {
                    &&& r == Ok::<u8, LaunchpadError>((old(self).min_signatures - old(self).num_signed - 1) as u8)
                    &&& final(self).signed@ == old(self).signed@.update(i, true)
                    &&& final(self).num_signed == old(self).num_signed + 1
                    &&& final(self).instruction_hash == instruction_hash
                } else {
                    r == Err::<u8, LaunchpadError>(LaunchpadError::MultisigAlreadyExecuted)
                }
            },
    {
        let idx = match self.get_signer_index(signer) {
            Some(i) => i,
            None => return Err(LaunchpadError::MultisigAccountNotAuthorized),
        };
        proof {
            lemma_chosen_index(self.signers@, *signer, idx as int);
            assert forall|i: int| #[trigger] first_index(old(self).signers@, *signer, i) implies i == idx by {
                if i < idx {
                    assert(self.signers@[i]@ != signer@);
                } else if i > idx {
                    assert(self.signers@[idx as int]@ != signer@);
                }
            }
        }
        if self.signers.len() <= 1 {
            return Ok(0);
        }
        if instruction_hash != self.instruction_hash {
            let n = self.signed.len();
            let mut signed: Vec<bool> = Vec::new();
            let mut j: usize = 0;
            while j < n
                invariant
                    j <= n,
                    idx < n,
                    signed@ == Seq::new(j as nat, |k: int| k == idx),
                decreases n - j,
            {
                signed.push(j == idx);
                j = j + 1;
                assert(signed@ =~= Seq::new(j as nat, |k: int| k == idx));
            }
            self.signed = signed;
            self.num_signed = 1;
            self.instruction_hash = instruction_hash;
            return Ok(self.min_signatures - 1);
        }
        if self.signed[idx] {
            return Err(LaunchpadError::MultisigAlreadySigned);
        }
        if self.num_signed < self.min_signatures {
            self.num_signed = self.num_signed + 1;
            self.signed.set(idx, true);
            return Ok(self.min_signatures - self.num_signed);
        }
        Err(LaunchpadError::MultisigAlreadyExecuted)
    }

    /// What `sign_multisig` would return, without signing.
    pub fn signatures_left(&self, signer: &Address, instruction_hash: u64) -> (r: Result<u8, LaunchpadError>)
        requires
            self.well_formed(),
        ensures
            r == self.spec_sign_result(*signer, instruction_hash),
    {
        let idx = match self.get_signer_index(signer) {
            Some(i) => i,
            None => return Err(LaunchpadError::MultisigAccountNotAuthorized),
        };
        proof {
            lemma_chosen_index(self.signers@, *signer, idx as int);
        }
        if self.signers.len() <= 1 {
            Ok(0)
        } else if instruction_hash != self.instruction_hash {
            Ok(self.min_signatures - 1)
        } else if self.signed[idx] {
            Err(LaunchpadError::MultisigAlreadySigned)
        } else if self.num_signed < self.min_signatures {
            Ok(self.min_signatures - self.num_signed - 1)
        } else {
            Err(LaunchpadError::MultisigAlreadyExecuted)
        }
    }

    /// The quorum step of an admin operation. `blocked` is the error the
    /// operation would fail with if it ran now. A refused signature, or an
    /// operation that would fail once no more signatures are needed, leaves
    /// the quorum as it was; otherwise the signature is recorded and the
    /// result is the count still needed, zero meaning the operation runs.
    pub fn approve(&mut self, signer: &Address, instruction_hash: u64, blocked: Option<LaunchpadError>) -> (r: Result<u8, LaunchpadError>)
        requires
            old(self).well_formed(),
        ensures
            final(self).well_formed(),
            quorum_outcome(*old(self), *final(self), *signer, instruction_hash, blocked, r),
    {
        let k = self.signatures_left(signer, instruction_hash)?;
        if k == 0 {
            if let Some(e) = blocked {
                return Err(e);
            }
        }
        self.sign_multisig(signer, instruction_hash)
    }
}

} // verus!
