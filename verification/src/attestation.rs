//! The commit-side attestation verifier.
//!
//! A commitment is accepted only when a companion signature-verification
//! instruction in the same atomic transaction proves that the configured
//! liquidity-guard key signed exactly the 32-byte commitment hash. The
//! companion payload is parsed here: its offsets must reference data within
//! the instruction's own payload (rejecting any cross-instruction
//! indirection), the signed message must be the submitted hash, and the
//! signature bytes must be the submitted liquidity proof.

use vstd::prelude::*;

use crate::bytes::bytes32_eq;
use crate::bytes::window_eq32;
use crate::bytes::window_eq64;
use crate::errors::QuoteError;
use crate::rfq::Key;

verus! {

/// The native signature-verification program's 32-byte identity.
pub open spec fn spec_ed25519_program_id() -> Seq<u8> {
    seq![
        3u8, 125u8, 70u8, 214u8, 124u8, 147u8, 251u8, 190u8, 18u8, 249u8, 66u8, 143u8, 131u8,
        141u8, 64u8, 255u8, 5u8, 112u8, 116u8, 73u8, 39u8, 244u8, 138u8, 100u8, 252u8, 202u8,
        112u8, 68u8, 128u8, 0u8, 0u8, 0u8,
    ]
}

/// The native signature-verification program's 32-byte identity.
pub fn ed25519_program_id() -> (r: Key)
    ensures
        r@ == spec_ed25519_program_id(),
{
    let id: Key = [
        3u8, 125u8, 70u8, 214u8, 124u8, 147u8, 251u8, 190u8, 18u8, 249u8, 66u8, 143u8, 131u8,
        141u8, 64u8, 255u8, 5u8, 112u8, 116u8, 73u8, 39u8, 244u8, 138u8, 100u8, 252u8, 202u8,
        112u8, 68u8, 128u8, 0u8, 0u8, 0u8,
    ];
    proof {
        assert(id@ =~= spec_ed25519_program_id());
    }
    id
}

/// The raw payload of the companion instruction that ran in the same
/// atomic transaction, as fetched by the host's introspection capability.
pub struct CompanionInstruction {
    /// The program the companion instruction targets.
    pub program_id: Key,
    /// Its raw instruction data.
    pub data: Vec<u8>,
}

/// The 16-bit little-endian integer at offset `i` of `s`.
pub open spec fn spec_le16(s: Seq<u8>, i: int) -> int {
    s[i] + 256 * s[i + 1]
}

/// The first check the companion payload fails, if any: the payload must
/// come from the native signature-verification program, carry exactly one
/// signature, reference offsets within its own payload only, sign a
/// 32-byte message, be signed by the liquidity guard, and bind exactly the
/// submitted commitment hash and liquidity proof.
pub open spec fn spec_attestation_error(
    companion: Option<CompanionInstruction>,
    guard_key: Seq<u8>,
    commit_hash: Seq<u8>,
    liquidity_proof: Seq<u8>,
) -> Option<QuoteError> {
    match companion {
        Option::None => Some(QuoteError::NoEd25519Instruction),
        Option::Some(c) => {
            let d = c.data@;
            if c.program_id@ != spec_ed25519_program_id() {
                Some(QuoteError::InvalidEd25519Program)
            } else if d.len() < 112 {
                Some(QuoteError::InvalidEd25519Data)
            } else if d[0] != 1 {
                Some(QuoteError::InvalidSignatureCount)
            } else {
                let sig_offset = spec_le16(d, 2);
                let sig_ix_index = spec_le16(d, 4);
                let pubkey_offset = spec_le16(d, 6);
                let pubkey_ix_index = spec_le16(d, 8);
                let msg_offset = spec_le16(d, 10);
                let msg_size = spec_le16(d, 12);
                let msg_ix_index = spec_le16(d, 14);
                if sig_ix_index != 0xFFFF || pubkey_ix_index != 0xFFFF || msg_ix_index
                    != 0xFFFF {
                    Some(QuoteError::InvalidOffset)
                } else if msg_size != 32 {
                    Some(QuoteError::InvalidMessageSize)
                } else if d.len() - sig_offset < 64 || d.len() - pubkey_offset < 32 || d.len()
                    - msg_offset < 32 {
                    Some(QuoteError::InvalidEd25519Data)
                } else if d.subrange(pubkey_offset, pubkey_offset + 32) != guard_key {
                    Some(QuoteError::UnauthorizedSigner)
                } else if d.subrange(msg_offset, msg_offset + 32) != commit_hash {
                    Some(QuoteError::CommitHashMismatch)
                } else if d.subrange(sig_offset, sig_offset + 64) != liquidity_proof {
                    Some(QuoteError::LiquidityProofSignatureMismatch)
                } else {
                    None
                }
            }
        },
    }
}

/// Verifies the companion attestation instruction against the configured
/// liquidity-guard key and the submitted commitment hash and proof.
pub fn check_attestation(
    companion: &Option<CompanionInstruction>,
    guard_key: &Key,
    commit_hash: &[u8; 32],
    liquidity_proof: &[u8; 64],
) -> (r: Result<(), QuoteError>)
    ensures
        r is Ok <==> spec_attestation_error(
            *companion,
            guard_key@,
            commit_hash@,
            liquidity_proof@,
        ) is None,
        r matches Err(e) ==> Some(e) == spec_attestation_error(
            *companion,
            guard_key@,
            commit_hash@,
            liquidity_proof@,
        ),
{
    let c = match companion {
        Some(c) => c,
        None => {
            return Err(QuoteError::NoEd25519Instruction);
        },
    };
    if !bytes32_eq(&c.program_id, &ed25519_program_id()) {
        return Err(QuoteError::InvalidEd25519Program);
    }
    let n: usize = c.data.len();
    if n < 112 {
        return Err(QuoteError::InvalidEd25519Data);
    }
    if c.data[0] != 1 {
        return Err(QuoteError::InvalidSignatureCount);
    }
    let sig_offset: usize = c.data[2] as usize + 256 * (c.data[3] as usize);
    let sig_ix_index: usize = c.data[4] as usize + 256 * (c.data[5] as usize);
    let pubkey_offset: usize = c.data[6] as usize + 256 * (c.data[7] as usize);
    let pubkey_ix_index: usize = c.data[8] as usize + 256 * (c.data[9] as usize);
    let msg_offset: usize = c.data[10] as usize + 256 * (c.data[11] as usize);
    let msg_size: usize = c.data[12] as usize + 256 * (c.data[13] as usize);
    let msg_ix_index: usize = c.data[14] as usize + 256 * (c.data[15] as usize);
    if sig_ix_index != 0xFFFF || pubkey_ix_index != 0xFFFF || msg_ix_index != 0xFFFF {
        return Err(QuoteError::InvalidOffset);
    }
    if msg_size != 32 {
        return Err(QuoteError::InvalidMessageSize);
    }
    if sig_offset > n || n - sig_offset < 64 {
        return Err(QuoteError::InvalidEd25519Data);
    }
    if pubkey_offset > n || n - pubkey_offset < 32 {
        return Err(QuoteError::InvalidEd25519Data);
    }
    if msg_offset > n || n - msg_offset < 32 {
        return Err(QuoteError::InvalidEd25519Data);
    }
    if !window_eq32(c.data.as_slice(), pubkey_offset, guard_key) {
        return Err(QuoteError::UnauthorizedSigner);
    }
    if !window_eq32(c.data.as_slice(), msg_offset, commit_hash) {
        return Err(QuoteError::CommitHashMismatch);
    }
    if !window_eq64(c.data.as_slice(), sig_offset, liquidity_proof) {
        return Err(QuoteError::LiquidityProofSignatureMismatch);
    }
    Ok(())
}

} // verus!
