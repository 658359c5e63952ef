//! Typed errors for every guard in the protocol.
//!
//! Every precondition failure surfaces as a distinct variant; no guard is
//! ever silently swallowed. The taxonomy: state errors (action not permitted
//! in the current phase), timing errors (outside the valid deadline window),
//! authorization errors (wrong caller), verification errors (commitment or
//! signature mismatch), arithmetic errors (overflow, always fatal), and
//! uniqueness errors (duplicate commitment hash or reward claim).

use vstd::prelude::*;

verus! {

/// Errors raised by configuration-registry updates.
#[derive(Clone, Copy, Debug, PartialEq, Eq, Structural)]
pub enum EngineError {
    /// Only the stored admin may update or close the configuration.
    Unauthorized,
}

/// Errors raised while committing a quote (the commit half of the
/// commit-reveal sub-protocol, including attestation verification).
#[derive(Clone, Copy, Debug, PartialEq, Eq, Structural)]
pub enum QuoteError {
    /// No companion signature-verification instruction was supplied.
    NoEd25519Instruction,
    /// The companion instruction does not target the native Ed25519 program.
    InvalidEd25519Program,
    /// The companion instruction payload is malformed or mis-sized.
    InvalidEd25519Data,
    /// The companion instruction carries a signature count other than one.
    InvalidSignatureCount,
    /// The companion instruction references data outside its own payload.
    InvalidOffset,
    /// The signed message is not exactly 32 bytes long.
    InvalidMessageSize,
    /// The attestation was signed by a key other than the liquidity guard.
    UnauthorizedSigner,
    /// The signed message differs from the submitted commitment hash.
    CommitHashMismatch,
    /// The signature bytes differ from the submitted liquidity proof.
    LiquidityProofSignatureMismatch,
    /// The commitment hash is already bound to an earlier quote.
    DuplicateCommitHash,
    /// The commit window has closed.
    CommitTooLate,
    /// The RFQ is not in a phase that accepts commitments.
    InvalidState,
}

/// Errors raised by the RFQ lifecycle controller.
#[derive(Clone, Copy, Debug, PartialEq, Eq, Structural)]
pub enum RfqError {
    /// The RFQ is not in a phase that permits this action.
    InvalidRfqState,
    /// The quote record is not in a state that permits this action.
    InvalidQuoteState,
    /// The quote does not belong to the expected RFQ.
    InvalidRfqAssociation,
    /// The settlement record does not reference the expected quote.
    InvalidQuote,
    /// The caller is not the required maker, taker or facilitator.
    Unauthorized,
    /// The RFQ already has a selected quote.
    AlreadySelected,
    /// A parameter failed validation.
    InvalidParams,
    /// The bond amount must be strictly positive.
    InvalidBondAmount,
    /// The base amount must be strictly positive.
    InvalidBaseAmount,
    /// The minimum quote amount must be strictly positive.
    InvalidMinQuoteAmount,
    /// The taker fee must be strictly positive.
    InvalidFeeAmount,
    /// The commit phase duration must be strictly positive.
    InvalidCommitTTL,
    /// The reveal phase duration must be strictly positive.
    InvalidRevealTTL,
    /// The selection phase duration must be strictly positive.
    InvalidSelectionTTL,
    /// The funding phase duration must be strictly positive.
    InvalidFundingTTL,
    /// The facilitator fee rate exceeds the basis-point ceiling.
    InvalidFacilitatorFeeRate,
    /// Reveal attempted while the commit window is still open.
    RevealTooEarly,
    /// Reveal attempted after the reveal window closed.
    RevealTooLate,
    /// Selection attempted while the reveal window is still open.
    SelectionTooEarly,
    /// Selection attempted after the selection window closed.
    SelectionTooLate,
    /// Settlement completion attempted after the funding deadline.
    FundingTooLate,
    /// Expiry close attempted before its deadline condition holds.
    ExpireTooEarly,
    /// Incomplete close attempted before the funding deadline passed.
    TooEarly,
    /// The revealed value does not reproduce the stored commitment hash.
    CommitmentMismatch,
    /// The revealed quote amount is below the price floor.
    InvalidQuoteAmount,
    /// The quote has already been revealed.
    QuoteAlreadyRevealed,
    /// A selected quote's bond is settled through completion, not refund.
    SelectedQuoteNotRefundable,
    /// An unrevealed quote's bond is forfeited, not refunded.
    UnrevealedQuoteNotRefundable,
    /// This quote's bond was already refunded.
    QuoteBondsAlreadyRefunded,
    /// Per-quote refunds open only after the funding deadline.
    QuoteRefundBeforeFundingDeadline,
    /// A facilitator reward for this RFQ was already claimed.
    DuplicateRewardClaim,
    /// An overflow occurred in fee or slash computation; always fatal.
    ArithmeticOverflow,
}

} // verus!
