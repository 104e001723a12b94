//! Hash time-locked contracts whose coins sit behind a taproot output with two leaves: one that
//! the receiver spends with the preimage of the payment hash, one that the sender spends after a
//! relative timeout.

pub mod address;
pub mod alike;
pub mod contract;
pub mod error;
mod fields;
pub mod hexadecimal;
pub mod laws;
pub mod observed;
pub mod scripts;
pub mod sighash;
pub mod signature_building;
pub mod spending;
pub mod taproot;
pub mod transaction;
pub mod transcript;
pub mod witness;
pub mod witness_building;

pub use address::{Address, Network, Payload};
pub use contract::{HtlcFunded, RedeemConfig, RefundConfig, HTLC};
pub use error::HtlcError;
pub use scripts::HtlcScripts;
pub use sighash::{compute_taproot_sighash, TapSighashType};
pub use signature_building::{ContractComponents, GrindField, SignatureBuilder};
pub use spending::{FeeSpend, SpendPlan};
pub use taproot::{nums_key, TaprootSpendInfo};
pub use transaction::{add_fee_to_txn, raw_transaction_hex, OutPoint, Transaction, TxIn, TxOut};
