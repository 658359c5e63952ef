//! Per-RFQ settlement-side trackers.
//!
//! The slashed-bonds tracker is the single source of truth preventing
//! double-slashing across the several possible exit paths; the facilitator
//! reward registry makes a second reward claim for the same (RFQ,
//! facilitator) pair fail at creation; the fees tracker records the fee
//! payment made at settlement completion.

use vstd::prelude::*;

use crate::MAX_TIMESTAMP;
use crate::bytes::bytes32_eq;
use crate::errors::RfqError;
use crate::rfq::Key;

verus! {

/// One per RFQ, created when the RFQ opens. Resolved exactly when both the
/// seized amount and the seizure timestamp are set; once resolved it is
/// never recomputed or re-transferred.
pub struct SlashedBondsTracker {
    /// The RFQ this tracker belongs to.
    pub rfq: Key,
    /// Settlement-asset identifier, snapshotted at open time.
    pub usdc_mint: Key,
    /// Treasury owner, snapshotted at open time.
    pub treasury_usdc_owner: Key,
    /// Amount forfeited to the treasury, once seized.
    pub amount: Option<u64>,
    /// When the forfeiture happened.
    pub seized_at: Option<i64>,
}

impl SlashedBondsTracker {
    /// Well-formedness: the amount and timestamp are set together.
    pub open spec fn wf(self) -> bool {
        &&& (self.amount is Some <==> self.seized_at is Some)
        &&& (self.seized_at matches Some(t) ==> 0 <= t <= MAX_TIMESTAMP)
    }

    /// Whether the forfeiture has already been computed and transferred.
    pub open spec fn spec_is_resolved(self) -> bool {
        self.amount is Some && self.seized_at is Some
    }

    /// Whether the forfeiture has already been computed and transferred.
    pub fn is_resolved(&self) -> (r: bool)
        ensures
            r == self.spec_is_resolved(),
    {
        self.amount.is_some() && self.seized_at.is_some()
    }

    /// A fresh, unresolved tracker for the RFQ `rfq`.
    pub fn new(rfq: Key, usdc_mint: Key, treasury_usdc_owner: Key) -> (r: SlashedBondsTracker)
        ensures
            r == (SlashedBondsTracker {
                rfq,
                usdc_mint,
                treasury_usdc_owner,
                amount: None,
                seized_at: None,
            }),
            r.wf(),
            !r.spec_is_resolved(),
    {
        SlashedBondsTracker { rfq, usdc_mint, treasury_usdc_owner, amount: None, seized_at: None }
    }
}

/// Record of one facilitator reward claim.
#[derive(Clone, Copy, Debug)]
pub struct FacilitatorRewardTracker {
    /// The RFQ the reward stems from.
    pub rfq: Key,
    /// The facilitator who claimed it.
    pub facilitator: Key,
    /// Settlement-asset identifier.
    pub usdc_mint: Key,
    /// The amount withdrawn.
    pub amount: u64,
    /// When the claim was made.
    pub claimed_at: i64,
}

/// One record per (RFQ, facilitator) pair, created on reward withdrawal;
/// its existence is itself the double-claim guard.
pub struct RewardRegistry {
    entries: Vec<FacilitatorRewardTracker>,
}

impl RewardRegistry {
    /// The claims recorded so far, in insertion order.
    pub closed spec fn claims(self) -> Seq<FacilitatorRewardTracker> {
        self.entries@
    }

    /// Whether a claim for this (RFQ, facilitator) pair already exists.
    pub open spec fn contains_claim(self, rfq: Seq<u8>, facilitator: Seq<u8>) -> bool {
        exists|i: int|
            0 <= i < self.claims().len() && self.claims()[i].rfq@ == rfq
                && self.claims()[i].facilitator@ == facilitator
    }

    /// Well-formedness: no two claims share the same (RFQ, facilitator)
    /// pair.
    pub open spec fn wf(self) -> bool {
        forall|i: int, j: int|
            0 <= i < j < self.claims().len() ==> !(self.claims()[i].rfq@ == self.claims()[j].rfq@
                && self.claims()[i].facilitator@ == self.claims()[j].facilitator@)
    }

    /// An empty registry.
    pub fn new() -> (r: RewardRegistry)
        ensures
            r.wf(),
            r.claims() == Seq::<FacilitatorRewardTracker>::empty(),
    {
        RewardRegistry { entries: Vec::new() }
    }

    /// Whether a claim for this (RFQ, facilitator) pair already exists.
    pub fn contains(&self, rfq: &Key, facilitator: &Key) -> (r: bool)
        ensures
            r == self.contains_claim(rfq@, facilitator@),
    {
        let n: usize = self.entries.len();
        let mut i: usize = 0;
        while i < n
            invariant
                i <= n,
                n == self.entries@.len(),
                forall|j: int|
                    0 <= j < i ==> !(self.entries@[j].rfq@ == rfq@
                        && self.entries@[j].facilitator@ == facilitator@),
            decreases n - i,
        {
            if bytes32_eq(&self.entries[i].rfq, rfq) && bytes32_eq(
                &self.entries[i].facilitator,
                facilitator,
            ) {
                proof {
                    assert(self.claims()[i as int].rfq@ == rfq@);
                }
                return true;
            }
            i = i + 1;
        }
        false
    }

    /// Records a reward claim. Fails with a uniqueness error, and changes
    /// nothing, if a claim for the same (RFQ, facilitator) pair exists.
    pub fn insert(&mut self, claim: FacilitatorRewardTracker) -> (r: Result<(), RfqError>)
        requires
            old(self).wf(),
        ensures
            final(self).wf(),
            r is Ok <==> !old(self).contains_claim(claim.rfq@, claim.facilitator@),
            r matches Err(e) ==> e == RfqError::DuplicateRewardClaim && *final(self) == *old(
                self,
            ),
            r is Ok ==> final(self).claims() == old(self).claims().push(claim),
            final(self).contains_claim(claim.rfq@, claim.facilitator@),
    {
        if self.contains(&claim.rfq, &claim.facilitator) {
            return Err(RfqError::DuplicateRewardClaim);
        }
        let ghost prior = self.entries@;
        self.entries.push(claim);
        proof {
            let n = self.claims().len();
            assert(self.claims()[n - 1].rfq@ == claim.rfq@);
            assert forall|i: int, j: int|
                0 <= i < j < n implies !(self.claims()[i].rfq@ == self.claims()[j].rfq@
                && self.claims()[i].facilitator@ == self.claims()[j].facilitator@) by {
                if j < n - 1 {
                    assert(self.claims()[i] == prior[i] && self.claims()[j] == prior[j]);
                    assert(!(old(self).claims()[i].rfq@ == old(self).claims()[j].rfq@ && old(
                        self,
                    ).claims()[i].facilitator@ == old(self).claims()[j].facilitator@));
                } else {
                    assert(self.claims()[i] == prior[i]);
                    assert(self.claims()[j] == claim);
                    if prior[i].rfq@ == claim.rfq@ && prior[i].facilitator@
                        == claim.facilitator@ {
                        assert(old(self).claims()[i].rfq@ == claim.rfq@);
                        assert(old(self).contains_claim(claim.rfq@, claim.facilitator@));
                    }
                }
            }
        }
        Ok(())
    }
}

/// Record of the taker-fee payment made when settlement completes.
pub struct FeesTracker {
    /// The RFQ the fee belongs to.
    pub rfq: Key,
    /// The taker who paid it.
    pub taker: Key,
    /// Settlement-asset identifier.
    pub usdc_mint: Key,
    /// Treasury owner the treasury share went to.
    pub treasury_usdc_owner: Key,
    /// The fee amount collected.
    pub amount: u64,
    /// When the fee was paid.
    pub payed_at: i64,
}

} // verus!
