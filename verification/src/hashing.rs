//! The commitment hash: a SHA-256 digest over a fixed concatenation of the
//! reveal-time fields. The digest itself is computed by an outside crate;
//! the preimage layout is this module's own, verified logic.

use vstd::prelude::*;

use crate::bytes::append_bytes;
use crate::rfq::Key;
use vstd::bytes::spec_u64_to_le_bytes;
use vstd::bytes::u64_to_le_bytes;

verus! {

/// The SHA-256 digest of a byte string: 32 bytes, a function of the input
/// alone.
pub uninterp spec fn sha256_of(data: Seq<u8>) -> Seq<u8>;

/// Relies on `solana_program::hash::hash`: the SHA-256 digest of the input
/// bytes, 32 bytes long, depending on the input alone.
#[verifier::external_body]
fn sha256(data: &Vec<u8>) -> (r: [u8; 32])
    ensures
        r@ == sha256_of(data@),
{
    solana_program::hash::hash(data.as_slice()).to_bytes()
}

/// The fixed preimage layout of a commitment hash: salt, RFQ identity,
/// taker identity, quote-asset identity, then quote amount, bond amount and
/// fee amount as little-endian 8-byte integers.
pub open spec fn spec_commit_preimage(
    salt: Seq<u8>,
    rfq_key: Seq<u8>,
    taker: Seq<u8>,
    quote_mint: Seq<u8>,
    quote_amount: u64,
    bond_amount: u64,
    fee_amount: u64,
) -> Seq<u8> {
    salt + rfq_key + taker + quote_mint + spec_u64_to_le_bytes(quote_amount)
        + spec_u64_to_le_bytes(bond_amount) + spec_u64_to_le_bytes(fee_amount)
}

/// The commitment digest a reveal must reproduce: SHA-256 over the fixed
/// preimage layout.
pub open spec fn spec_commit_digest(
    salt: Seq<u8>,
    rfq_key: Seq<u8>,
    taker: Seq<u8>,
    quote_mint: Seq<u8>,
    quote_amount: u64,
    bond_amount: u64,
    fee_amount: u64,
) -> Seq<u8> {
    sha256_of(
        spec_commit_preimage(salt, rfq_key, taker, quote_mint, quote_amount, bond_amount,
        fee_amount),
    )
}

/// Recomputes the commitment digest from the revealed values.
pub fn commit_digest(
    salt: &[u8; 64],
    rfq_key: &Key,
    taker: &Key,
    quote_mint: &Key,
    quote_amount: u64,
    bond_amount: u64,
    fee_amount: u64,
) -> (r: [u8; 32])
    ensures
        r@ == spec_commit_digest(
            salt@,
            rfq_key@,
            taker@,
            quote_mint@,
            quote_amount,
            bond_amount,
            fee_amount,
        ),
{
    let mut buf: Vec<u8> = Vec::new();
    append_bytes(&mut buf, salt.as_slice());
    append_bytes(&mut buf, rfq_key.as_slice());
    append_bytes(&mut buf, taker.as_slice());
    append_bytes(&mut buf, quote_mint.as_slice());
    let amount_bytes = u64_to_le_bytes(quote_amount);
    append_bytes(&mut buf, amount_bytes.as_slice());
    let bond_bytes = u64_to_le_bytes(bond_amount);
    append_bytes(&mut buf, bond_bytes.as_slice());
    let fee_bytes = u64_to_le_bytes(fee_amount);
    append_bytes(&mut buf, fee_bytes.as_slice());
    proof {
        assert(buf@ =~= spec_commit_preimage(
            salt@,
            rfq_key@,
            taker@,
            quote_mint@,
            quote_amount,
            bond_amount,
            fee_amount,
        ));
    }
    sha256(&buf)
}

} // verus!
