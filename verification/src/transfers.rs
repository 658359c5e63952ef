//! Transfer directives: the exact asset movements a lifecycle action
//! requires. The controller computes them; the host's asset-transfer
//! service performs them atomically.

use vstd::prelude::*;

use crate::rfq::Key;

verus! {

/// Move `amount` units of the asset `mint` from the account `from` to the
/// account `to`.
#[derive(Clone, Copy, Debug)]
pub struct TokenTransfer {
    pub from: Key,
    pub to: Key,
    pub mint: Key,
    pub amount: u64,
}

} // verus!
