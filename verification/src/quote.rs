//! Quote records and the commitment replay guard.
//!
//! One `Quote` exists per (RFQ, taker) pair, created at commit time. A
//! commitment hash may be bound to at most one quote for the lifetime of
//! the system: the `GuardRegistry` holds one `CommitGuard` per unique hash
//! and refuses a second insertion of the same hash, whichever RFQ or taker
//! attempts it.

use vstd::prelude::*;

use crate::MAX_TIMESTAMP;
use crate::errors::QuoteError;
use crate::rfq::Key;

verus! {

/// One taker's sealed price commitment on one RFQ.
pub struct Quote {
    /// Identity of this quote record.
    pub key: Key,
    /// The RFQ this quote belongs to.
    pub rfq: Key,
    /// The taker who owns this quote.
    pub taker: Key,
    /// 32-byte commitment hash published at commit time.
    pub commit_hash: [u8; 32],
    /// 64-byte liquidity-attestation signature bound to the hash.
    pub liquidity_proof: [u8; 64],
    /// When the commitment was made.
    pub committed_at: i64,
    /// When the quote was revealed; unset until a valid reveal.
    pub revealed_at: Option<i64>,
    /// The revealed quote amount; set exactly when `revealed_at` is.
    pub quote_amount: Option<u64>,
    /// Funding-deadline horizon snapshotted at commit time.
    pub max_funding_deadline: i64,
    /// When this quote's bond was individually refunded.
    pub bonds_refunded_at: Option<i64>,
    /// The taker's pre-declared settlement-asset account.
    pub taker_payment_account: Key,
    /// Whether the maker selected this quote.
    pub selected: bool,
    /// Facilitator this taker credits, if any.
    pub facilitator: Option<Key>,
}

impl Quote {
    /// Well-formedness: a quote is revealed exactly when it carries a
    /// revealed amount, only revealed quotes can be selected, and
    /// timestamps stay within protocol bounds.
    pub open spec fn wf(self) -> bool {
        &&& (self.revealed_at is Some <==> self.quote_amount is Some)
        &&& (self.selected ==> self.revealed_at is Some)
        &&& 0 <= self.committed_at <= MAX_TIMESTAMP
        &&& (self.revealed_at matches Some(t) ==> 0 <= t <= MAX_TIMESTAMP)
        &&& (self.bonds_refunded_at matches Some(t) ==> 0 <= t <= MAX_TIMESTAMP)
    }

    /// Whether the quote has been revealed.
    pub fn is_revealed(&self) -> (r: bool)
        ensures
            r == (self.revealed_at is Some),
    {
        self.revealed_at.is_some()
    }

    /// Whether this quote's bond was already refunded.
    pub fn bonds_refunded(&self) -> (r: bool)
        ensures
            r == (self.bonds_refunded_at is Some),
    {
        self.bonds_refunded_at.is_some()
    }
}

/// One record per unique commitment hash, created at commit time and never
/// deleted; its sole purpose is to make hash reuse fail at creation time.
#[derive(Clone, Copy, Debug)]
pub struct CommitGuard {
    /// The guarded commitment hash.
    pub commit_hash: [u8; 32],
    /// The quote the hash is bound to.
    pub quote: Key,
    /// When the hash was first committed.
    pub committed_at: i64,
}

/// The set of all commitment hashes ever committed, keyed by hash;
/// insertion of a hash already present fails.
pub struct GuardRegistry {
    entries: Vec<CommitGuard>,
}

impl GuardRegistry {
    /// The guards recorded so far, in insertion order.
    pub closed spec fn guards(self) -> Seq<CommitGuard> {
        self.entries@
    }

    /// Whether some guard already binds the hash `h`.
    pub open spec fn contains_hash(self, h: Seq<u8>) -> bool {
        exists|i: int| 0 <= i < self.guards().len() && self.guards()[i].commit_hash@ == h
    }

    /// Well-formedness: no two guards bind the same hash.
    pub open spec fn wf(self) -> bool {
        forall|i: int, j: int|
            0 <= i < j < self.guards().len() ==> self.guards()[i].commit_hash@
                != self.guards()[j].commit_hash@
    }

    /// An empty registry.
    pub fn new() -> (r: GuardRegistry)
        ensures
            r.wf(),
            r.guards() == Seq::<CommitGuard>::empty(),
    {
        GuardRegistry { entries: Vec::new() }
    }

    /// Whether the hash `h` was ever recorded.
    pub fn contains(&self, h: &[u8; 32]) -> (r: bool)
        ensures
            r == self.contains_hash(h@),
    {
        let n: usize = self.entries.len();
        let mut i: usize = 0;
        while i < n
            invariant
                i <= n,
                n == self.entries@.len(),
                forall|j: int| 0 <= j < i ==> self.entries@[j].commit_hash@ != h@,
            decreases n - i,
        {
            if crate::bytes::bytes32_eq(&self.entries[i].commit_hash, h) {
                proof {
                    assert(self.guards()[i as int].commit_hash@ == h@);
                }
                return true;
            }
            i = i + 1;
        }
        false
    }

    /// Records a new commitment hash. Fails with a uniqueness error, and
    /// changes nothing, if the hash was ever recorded before.
    pub fn insert(&mut self, guard: CommitGuard) -> (r: Result<(), QuoteError>)
        requires
            old(self).wf(),
        ensures
            final(self).wf(),
            r is Ok <==> !old(self).contains_hash(guard.commit_hash@),
            r matches Err(e) ==> e == QuoteError::DuplicateCommitHash && *final(self) == *old(
                self,
            ),
            r is Ok ==> final(self).guards() == old(self).guards().push(guard),
            final(self).contains_hash(guard.commit_hash@),
    {
        if self.contains(&guard.commit_hash) {
            return Err(QuoteError::DuplicateCommitHash);
        }
        let ghost prior = self.entries@;
        self.entries.push(guard);
        proof {
            let n = self.guards().len();
            assert(self.guards()[n - 1].commit_hash@ == guard.commit_hash@);
            assert forall|i: int, j: int|
                0 <= i < j < n implies self.guards()[i].commit_hash@
                != self.guards()[j].commit_hash@ by {
                if j < n - 1 {
                    assert(self.guards()[i] == prior[i] && self.guards()[j] == prior[j]);
                    assert(old(self).guards()[i].commit_hash@ != old(
                        self,
                    ).guards()[j].commit_hash@);
                } else {
                    assert(self.guards()[i] == prior[i]);
                    assert(self.guards()[j] == guard);
                    if prior[i].commit_hash@ == guard.commit_hash@ {
                        assert(old(self).guards()[i].commit_hash@ == guard.commit_hash@);
                        assert(old(self).contains_hash(guard.commit_hash@));
                    }
                }
            }
        }
        Ok(())
    }

    /// How many hashes have been recorded.
    pub fn len(&self) -> (r: usize)
        ensures
            r == self.guards().len(),
    {
        self.entries.len()
    }
}

} // verus!
