//! The signature that a covenant is satisfied with, and where it comes from.

use vstd::prelude::*;

use crate::sighash::TapSighashType;
use crate::transaction::{Transaction, TxOut};

verus! {

/// The field of a transaction that is varied until its signature has the wanted form.
#[derive(Clone, Copy, Debug, PartialEq, Eq)]
pub enum GrindField {
    LockTime,
}

/// A transaction whose signature has the wanted form, and the parts of that signature.
#[derive(Debug)]
pub struct ContractComponents {
    pub transaction: Transaction,
    pub signature_components: Vec<Vec<u8>>,
}

/// Finds signatures that a covenant accepts, and takes the signed message apart.
///
/// The contract hands over transactions and takes whatever comes back. Each operation may refuse,
/// in words of its own.
pub trait SignatureBuilder {
    /// Varies one field of a transaction until the signature has the wanted form.
    fn grind_transaction(
        &self,
        initial_tx: Transaction,
        grind_field: GrindField,
        prevouts: &Vec<TxOut>,
        leaf_hash: &[u8; 32],
    ) -> Result<ContractComponents, String>;

    /// The parts of the message that a signature on one input signs, in order.
    fn get_sigmsg_components(
        &self,
        tx: &Transaction,
        input_index: usize,
        prevouts: &Vec<TxOut>,
        leaf_hash: &[u8; 32],
        sighash_type: TapSighashType,
    ) -> Result<Vec<Vec<u8>>, String>;

    /// The signature that some parts make up.
    fn compute_signature_from_components(
        &self,
        signature_components: &Vec<Vec<u8>>,
    ) -> Result<[u8; 64], String>;
}

} // verus!
