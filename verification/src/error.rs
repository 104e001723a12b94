//! What can go wrong when a contract is spent.

use vstd::prelude::*;

verus! {

/// The reasons for which the contract's operations are refused.
#[derive(Debug)]
pub enum HtlcError {
    /// The contract lacks a field that the transaction needs.
    MissingFields,
    /// The redeem path was asked for and no preimage is known.
    PreimageRequired,
    /// The hash of the generator is no x coordinate of the curve.
    InvalidNumsPoint,
    /// The bytes of the unspendable key are not accepted as an x-only public key.
    InvalidPublicKey,
    /// A digest to sign is not 32 bytes long.
    InvalidMessage,
    /// The output that should pay the fee is worth no more than the fee.
    FeeNotCovered,
    /// The signature builder refused, with its own words.
    SignatureBuilding(String),
}

impl HtlcError {
    /// The words in which the error is reported.
    pub open spec fn text(self) -> Seq<char> {
        match self {
            HtlcError::MissingFields => "Missing required fields for redeem transaction"@,
            HtlcError::PreimageRequired => "Preimage is required"@,
            HtlcError::InvalidNumsPoint => "G_X hash should be a valid x-only point"@,
            HtlcError::InvalidPublicKey => "malformed public key"@,
            HtlcError::InvalidMessage => "message was not 32 bytes (do you need to hash?)"@,
            HtlcError::FeeNotCovered => "Fee UTXO value is less than or equal to fee"@,
            HtlcError::SignatureBuilding(words) => words@,
        }
    }

    /// Reports the error in words.
    pub fn message(&self) -> (r: String)
        ensures
            r@ == self.text(),
    {
        match self {
            HtlcError::MissingFields => {
                "Missing required fields for redeem transaction".to_owned()
            },
            HtlcError::PreimageRequired => "Preimage is required".to_owned(),
            HtlcError::InvalidNumsPoint => "G_X hash should be a valid x-only point".to_owned(),
            HtlcError::InvalidPublicKey => "malformed public key".to_owned(),
            HtlcError::InvalidMessage => {
                "message was not 32 bytes (do you need to hash?)".to_owned()
            },
            HtlcError::FeeNotCovered => "Fee UTXO value is less than or equal to fee".to_owned(),
            HtlcError::SignatureBuilding(words) => words.clone(),
        }
    }
}

} // verus!
