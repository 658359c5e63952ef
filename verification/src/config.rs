//! The global configuration registry, read-only for the protocol core.
//!
//! The core trusts these values as of RFQ-open time; admin updates are
//! gated on the stored admin identity.

use vstd::prelude::*;

use crate::bytes::bytes32_eq;
use crate::errors::EngineError;
use crate::rfq::Key;

verus! {

/// Deployment-wide configuration: admin authority, settlement-asset
/// identifier, treasury owner, and the liquidity-attestation public key.
pub struct Config {
    /// Admin authority for configuration updates.
    pub admin: Key,
    /// Settlement-asset (fee and bond) identifier.
    pub usdc_mint: Key,
    /// Owner of the treasury account receiving fees and slashed bonds.
    pub treasury_usdc_owner: Key,
    /// Public key whose signature attests taker liquidity at commit time.
    pub liquidity_guard: Key,
}

impl Config {
    /// Creates the configuration record.
    pub fn new(admin: Key, usdc_mint: Key, treasury_usdc_owner: Key, liquidity_guard: Key) -> (r:
        Config)
        ensures
            r == (Config { admin, usdc_mint, treasury_usdc_owner, liquidity_guard }),
    {
        Config { admin, usdc_mint, treasury_usdc_owner, liquidity_guard }
    }

    /// Patches the given fields. Only the stored admin may update; an
    /// unauthorized caller changes nothing.
    pub fn update(
        &mut self,
        caller: &Key,
        new_admin: Option<Key>,
        new_usdc_mint: Option<Key>,
        new_treasury_usdc_owner: Option<Key>,
        new_liquidity_guard: Option<Key>,
    ) -> (r: Result<(), EngineError>)
        ensures
            r is Ok <==> caller@ == old(self).admin@,
            r matches Err(e) ==> e == EngineError::Unauthorized && *final(self) == *old(self),
            r is Ok ==> *final(self) == (Config {
                admin: if new_admin is Some {
                    new_admin->Some_0
                } else {
                    old(self).admin
                },
                usdc_mint: if new_usdc_mint is Some {
                    new_usdc_mint->Some_0
                } else {
                    old(self).usdc_mint
                },
                treasury_usdc_owner: if new_treasury_usdc_owner is Some {
                    new_treasury_usdc_owner->Some_0
                } else {
                    old(self).treasury_usdc_owner
                },
                liquidity_guard: if new_liquidity_guard is Some {
                    new_liquidity_guard->Some_0
                } else {
                    old(self).liquidity_guard
                },
            }),
    {
        if !bytes32_eq(caller, &self.admin) {
            proof {
                assert(caller@ != self.admin@);
            }
            return Err(EngineError::Unauthorized);
        }
        if let Some(v) = new_admin {
            self.admin = v;
        }
        if let Some(v) = new_usdc_mint {
            self.usdc_mint = v;
        }
        if let Some(v) = new_treasury_usdc_owner {
            self.treasury_usdc_owner = v;
        }
        if let Some(v) = new_liquidity_guard {
            self.liquidity_guard = v;
        }
        Ok(())
    }
}

} // verus!
