//! The scripts of a contract's leaves.

use vstd::prelude::*;

use crate::address::Address;

verus! {

/// Writes the scripts that a contract's two leaves hold. The contract hands over the terms and
/// takes whatever script comes back.
pub trait HtlcScripts {
    /// The leaf that the receiver spends with the preimage of the payment hash.
    fn htlc_redeem_script(&self, redeem_address: &Address, payment_hash: &String) -> Vec<u8>;

    /// The leaf that the sender spends after the timeout.
    fn htlc_refund_script(&self, refund_address: &Address, refund_lock: i64) -> Vec<u8>;

    /// The receiver's leaf of a contract whose spender names the fee.
    fn htlc_redeem_script_with_fee(
        &self,
        redeem_address: &Address,
        payment_hash: &String,
    ) -> Vec<u8>;

    /// The sender's leaf of a contract whose spender names the fee.
    fn htlc_refund_script_with_fee(&self, refund_address: &Address, refund_lock: i64) -> Vec<u8>;
}

} // verus!
