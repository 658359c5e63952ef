//! The RFQ record and its deadline calculator.
//!
//! All phase boundaries derive from `opened_at` and the four configured
//! phase durations; the funding deadline is re-anchored to `selected_at`
//! once a quote is selected. Deadline functions return `None` when the RFQ
//! has not reached the state they presuppose; callers must treat `None` as
//! a hard precondition failure.

use vstd::prelude::*;

use crate::MAX_TIMESTAMP;

verus! {

/// A 32-byte account or participant identity.
pub type Key = [u8; 32];

/// Lifecycle phase of an RFQ.
///
/// The main line is `Draft -> Open -> Committed -> Revealed -> Selected ->
/// Settled`; the terminal side exits are `Expired` (from Open/Committed, no
/// usable outcome), `Ignored` (from Revealed, the maker never selected in
/// time) and `Incomplete` (from Selected, the taker never funded in time).
#[derive(Clone, Copy, Debug, PartialEq, Eq, Structural)]
pub enum RfqState {
    Draft,
    Open,
    Committed,
    Revealed,
    Selected,
    Settled,
    Expired,
    Ignored,
    Incomplete,
}

/// Requested facilitator change: clear the reference or set it to a key.
#[derive(Clone, Copy, Debug)]
pub enum FacilitatorUpdate {
    Clear,
    Assign(Key),
}

/// One trade request. Owned by its maker for mutation authorization;
/// phase-advancing actions past a deadline are permissionless.
pub struct Rfq {
    /// Identity of this RFQ record (bound into each commitment hash).
    pub key: Key,
    /// The maker who posted the request.
    pub maker: Key,
    /// Current lifecycle phase.
    pub state: RfqState,

    /// Asset the maker delivers.
    pub base_mint: Key,
    /// Asset the taker delivers.
    pub quote_mint: Key,

    /// Forfeitable deposit each participant posts, in settlement-asset units.
    pub bond_amount: u64,
    /// Exact amount of the base asset the maker will deliver.
    pub base_amount: u64,
    /// Minimum acceptable amount of the quote asset.
    pub min_quote_amount: u64,
    /// Fixed fee the winning taker pays.
    pub fee_amount: u64,

    /// Facilitator share of the fee, in basis points (0..=10000).
    pub facilitator_fee_bps: u16,
    /// Referring facilitator, if any.
    pub facilitator: Option<Key>,

    /// Commit phase duration in seconds.
    pub commit_ttl_secs: u32,
    /// Reveal phase duration in seconds.
    pub reveal_ttl_secs: u32,
    /// Selection phase duration in seconds.
    pub selection_ttl_secs: u32,
    /// Funding phase duration in seconds.
    pub fund_ttl_secs: u32,

    /// When the RFQ was created (Draft).
    pub created_at: i64,
    /// When the RFQ was opened; unset while Draft.
    pub opened_at: Option<i64>,
    /// When a quote was selected; unset until selection.
    pub selected_at: Option<i64>,
    /// When the RFQ reached a terminal phase.
    pub completed_at: Option<i64>,

    /// Number of quotes committed; monotonically non-decreasing.
    pub committed_count: u16,
    /// Number of quotes revealed; never exceeds `committed_count`.
    pub revealed_count: u16,

    /// The selected quote, once one exists.
    pub selected_quote: Option<Key>,
    /// The settlement record, once one exists.
    pub settlement: Option<Key>,

    /// Escrow vault holding bonds and fees for this RFQ.
    pub bonds_fees_vault: Key,
    /// The maker's pre-declared settlement-asset account.
    pub maker_payment_account: Key,
}

impl Rfq {
    /// Well-formedness: counter ordering, timestamp bounds that keep
    /// deadline arithmetic inside `i64`, phase/timestamp consistency, and
    /// strictly positive economics and durations once the RFQ is opened.
    pub open spec fn wf(self) -> bool {
        &&& self.revealed_count <= self.committed_count
        &&& 0 <= self.created_at <= MAX_TIMESTAMP
        &&& (self.opened_at matches Some(t) ==> 0 <= t <= MAX_TIMESTAMP)
        &&& (self.selected_at matches Some(t) ==> 0 <= t <= MAX_TIMESTAMP)
        &&& (self.state != RfqState::Draft ==> self.opened_at is Some)
        &&& (self.selected_at is Some ==> self.opened_at is Some)
        &&& (self.state != RfqState::Draft ==> {
            &&& self.bond_amount > 0
            &&& self.base_amount > 0
            &&& self.min_quote_amount > 0
            &&& self.fee_amount > 0
            &&& self.commit_ttl_secs > 0
            &&& self.reveal_ttl_secs > 0
            &&& self.selection_ttl_secs > 0
            &&& self.fund_ttl_secs > 0
        })
        &&& self.facilitator_fee_bps <= 10000
    }

    /// Whether the RFQ is still a draft.
    pub fn is_draft(&self) -> (r: bool)
        ensures
            r == (self.state is Draft),
    {
        matches!(self.state, RfqState::Draft)
    }

    /// Whether a quote has been selected.
    pub fn has_selection(&self) -> (r: bool)
        ensures
            r == (self.state is Selected && self.selected_at is Some),
    {
        matches!(self.state, RfqState::Selected) && self.selected_at.is_some()
    }

    /// When the RFQ was opened, if it has been.
    pub fn opened(&self) -> (r: Option<i64>)
        ensures
            r == self.opened_at,
    {
        self.opened_at
    }

    /// Commit deadline as a mathematical integer: `opened_at + commit_ttl`.
    pub open spec fn spec_commit_deadline(self) -> Option<int> {
        match self.opened_at {
            Some(t) => Some(t + self.commit_ttl_secs),
            None => None,
        }
    }

    /// Reveal deadline: `commit_deadline + reveal_ttl`.
    pub open spec fn spec_reveal_deadline(self) -> Option<int> {
        match self.opened_at {
            Some(t) => Some(t + self.commit_ttl_secs + self.reveal_ttl_secs),
            None => None,
        }
    }

    /// Selection deadline: `reveal_deadline + selection_ttl`.
    pub open spec fn spec_selection_deadline(self) -> Option<int> {
        match self.opened_at {
            Some(t) => Some(
                t + self.commit_ttl_secs + self.reveal_ttl_secs + self.selection_ttl_secs,
            ),
            None => None,
        }
    }

    /// Funding deadline: anchored to `selected_at` once a quote is selected;
    /// before selection it previews from `opened_at`, or from `created_at`
    /// if the RFQ was never opened.
    pub open spec fn spec_funding_deadline(self) -> Option<int> {
        let full = self.commit_ttl_secs + self.reveal_ttl_secs + self.selection_ttl_secs
            + self.fund_ttl_secs;
        match (self.opened_at, self.selected_at) {
            (Some(_o), Some(s)) => Some(s + self.fund_ttl_secs),
            (Some(o), None) => Some(o + full),
            (None, _) => Some(self.created_at + full),
        }
    }

    /// Commit deadline, or `None` before the RFQ is opened.
    pub fn commit_deadline(&self) -> (r: Option<i64>)
        requires
            self.wf(),
        ensures
            r is Some <==> self.spec_commit_deadline() is Some,
            r matches Some(d) ==> self.spec_commit_deadline() == Some(d as int),
    {
        match self.opened_at {
            Some(t) => Some(t + self.commit_ttl_secs as i64),
            None => None,
        }
    }

    /// Reveal deadline, or `None` before the RFQ is opened.
    pub fn reveal_deadline(&self) -> (r: Option<i64>)
        requires
            self.wf(),
        ensures
            r is Some <==> self.spec_reveal_deadline() is Some,
            r matches Some(d) ==> self.spec_reveal_deadline() == Some(d as int),
    {
        match self.opened_at {
            Some(t) => Some(t + self.commit_ttl_secs as i64 + self.reveal_ttl_secs as i64),
            None => None,
        }
    }

    /// Selection deadline, or `None` before the RFQ is opened.
    pub fn selection_deadline(&self) -> (r: Option<i64>)
        requires
            self.wf(),
        ensures
            r is Some <==> self.spec_selection_deadline() is Some,
            r matches Some(d) ==> self.spec_selection_deadline() == Some(d as int),
    {
        match self.opened_at {
            Some(t) => Some(
                t + self.commit_ttl_secs as i64 + self.reveal_ttl_secs as i64
                    + self.selection_ttl_secs as i64,
            ),
            None => None,
        }
    }

    /// Funding deadline; always determined, but selection-anchored only
    /// after a quote is selected.
    pub fn funding_deadline(&self) -> (r: Option<i64>)
        requires
            self.wf(),
        ensures
            r is Some <==> self.spec_funding_deadline() is Some,
            r matches Some(d) ==> self.spec_funding_deadline() == Some(d as int),
    {
        let full: i64 = self.commit_ttl_secs as i64 + self.reveal_ttl_secs as i64
            + self.selection_ttl_secs as i64 + self.fund_ttl_secs as i64;
        match (self.opened_at, self.selected_at) {
            (Some(_o), Some(s)) => Some(s + self.fund_ttl_secs as i64),
            (Some(o), None) => Some(o + full),
            (None, _) => Some(self.created_at + full),
        }
    }
}

/// Law: once an RFQ is opened, its phase deadlines are strictly ordered,
/// `commit_deadline < reveal_deadline < selection_deadline`; and once a
/// quote is selected the funding deadline is computed from `selected_at`,
/// never from `opened_at`.
pub proof fn lemma_deadline_ordering(rfq: Rfq)
    requires
        rfq.wf(),
        rfq.state != RfqState::Draft,
        rfq.opened_at is Some,
    ensures
        rfq.spec_commit_deadline()->Some_0 < rfq.spec_reveal_deadline()->Some_0
            < rfq.spec_selection_deadline()->Some_0,
        rfq.selected_at matches Some(s) ==> rfq.spec_funding_deadline() == Some(
            s + rfq.fund_ttl_secs,
        ),
{
}

} // verus!
