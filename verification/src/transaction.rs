//! Transactions, and the fee that anyone can add to one whose signature covers a single output.

use bitcoin::absolute::LockTime;
use bitcoin::hashes::Hash as HashOutput;
use bitcoin::transaction::Version;
use vstd::prelude::*;

use crate::address::Address;
use crate::error::HtlcError;
use crate::hexadecimal::encode_hex;
use crate::hexadecimal::hex_text;
use crate::witness::witness_items;
use crate::witness::witness_new;

verus! {

/// The sequence number of an input that asks for no lock.
pub const SEQUENCE_MAX: u32 = 0xffff_ffff;

/// An output of an earlier transaction, by that transaction's id and the output's index.
#[derive(Clone, Copy, Debug, PartialEq, Eq)]
pub struct OutPoint {
    pub txid: [u8; 32],
    pub vout: u32,
}

/// An input of a transaction.
#[derive(Debug)]
pub struct TxIn {
    pub previous_output: OutPoint,
    pub script_sig: Vec<u8>,
    pub sequence: u32,
    pub witness: bitcoin::Witness,
}

/// An output of a transaction. The value is in satoshi.
#[derive(Debug)]
pub struct TxOut {
    pub value: u64,
    pub script_pubkey: Vec<u8>,
}

/// A transaction.
#[derive(Debug)]
pub struct Transaction {
    pub version: i32,
    pub lock_time: u32,
    pub input: Vec<TxIn>,
    pub output: Vec<TxOut>,
}

/// What an input holds.
#[verifier::ext_equal]
pub struct TxInView {
    pub previous_output: OutPoint,
    pub script_sig: Seq<u8>,
    pub sequence: u32,
    pub witness: Seq<Seq<u8>>,
}

/// What an output holds.
#[verifier::ext_equal]
pub struct TxOutView {
    pub value: u64,
    pub script_pubkey: Seq<u8>,
}

/// What a transaction holds.
#[verifier::ext_equal]
pub struct TransactionView {
    pub version: i32,
    pub lock_time: u32,
    pub input: Seq<TxInView>,
    pub output: Seq<TxOutView>,
}

impl View for TxIn {
    type V = TxInView;

    open spec fn view(&self) -> TxInView {
        TxInView {
            previous_output: self.previous_output,
            script_sig: self.script_sig@,
            sequence: self.sequence,
            witness: witness_items(self.witness),
        }
    }
}

impl View for TxOut {
    type V = TxOutView;

    open spec fn view(&self) -> TxOutView {
        TxOutView { value: self.value, script_pubkey: self.script_pubkey@ }
    }
}

/// What each of some inputs holds.
pub open spec fn inputs_view(inputs: Seq<TxIn>) -> Seq<TxInView> {
    inputs.map_values(|i: TxIn| i@)
}

/// What each of some outputs holds.
pub open spec fn outputs_view(outputs: Seq<TxOut>) -> Seq<TxOutView> {
    outputs.map_values(|o: TxOut| o@)
}

impl View for Transaction {
    type V = TransactionView;

    open spec fn view(&self) -> TransactionView {
        TransactionView {
            version: self.version,
            lock_time: self.lock_time,
            input: inputs_view(self.input@),
            output: outputs_view(self.output@),
        }
    }
}

/// An input with an empty script and no witness yet.
pub open spec fn unsigned_input(previous_output: OutPoint, sequence: u32) -> TxInView {
    TxInView {
        previous_output,
        script_sig: Seq::empty(),
        sequence,
        witness: Seq::empty(),
    }
}

/// Makes an input with an empty script and no witness yet.
pub(crate) fn new_input(previous_output: OutPoint, sequence: u32) -> (r: TxIn)
    ensures
        r@ == unsigned_input(previous_output, sequence),
{
    TxIn { previous_output, script_sig: Vec::new(), sequence, witness: witness_new() }
}

impl TransactionView {
    /// The transaction with one input and one output more.
    pub open spec fn extended(self, input: TxInView, output: TxOutView) -> TransactionView {
        TransactionView {
            input: self.input.push(input),
            output: self.output.push(output),
            ..self
        }
    }

    /// What all outputs are worth.
    pub open spec fn output_value(self) -> int {
        total_value(self.output)
    }
}

/// What some outputs are worth together.
pub open spec fn total_value(outputs: Seq<TxOutView>) -> int
    decreases outputs.len(),
{
    if outputs.len() == 0 {
        0
    } else {
        total_value(outputs.drop_last()) + outputs.last().value
    }
}

/// Adds an input that pays a fee and an output that returns what is left of it to
/// `fee_refund_address`.
///
/// A signature that covers one input and the output of the same index stays valid. The output
/// that is spent must be worth more than the fee; otherwise the transaction stays as it was.
pub fn add_fee_to_txn<'a>(
    txn: &'a mut Transaction,
    fee_outpoint: OutPoint,
    fee_utxo_value: u64,
    fee_sats: u64,
    fee_refund_address: Address,
) -> (r: Result<&'a mut Transaction, HtlcError>)
    requires
        fee_refund_address.wf(),
    ensures
        r is Ok <==> fee_sats < fee_utxo_value,
        match r {
            Ok(grown) => {
                &&& grown@ == old(txn)@.extended(
                    unsigned_input(fee_outpoint, SEQUENCE_MAX),
                    TxOutView {
                        value: (fee_utxo_value - fee_sats) as u64,
                        script_pubkey: fee_refund_address.script(),
                    },
                )
                &&& *final(txn) == *final(grown)
            },
            Err(e) => e == HtlcError::FeeNotCovered && *final(txn) == *old(txn),
        },
{
    let input = new_input(fee_outpoint, SEQUENCE_MAX);
    if fee_utxo_value <= fee_sats {
        return Err(HtlcError::FeeNotCovered);
    }
    let output = TxOut {
        value: fee_utxo_value - fee_sats,
        script_pubkey: fee_refund_address.script_pubkey(),
    };
    txn.input.push(input);
    txn.output.push(output);
    assert(txn@ =~= old(txn)@.extended(input@, output@));
    Ok(txn)
}

/// The bytes of a transaction on the wire.
pub uninterp spec fn consensus_encoding(transaction: TransactionView) -> Seq<u8>;

/// Calls `bitcoin::consensus::serialize` on a transaction. Its result depends on what the
/// transaction holds and on nothing else.
#[verifier::external_body]
fn serialize_transaction(tx: &Transaction) -> (r: Vec<u8>)
    ensures
        r@ == consensus_encoding(tx@),
{
    let input = tx.input.iter().map(|i| bitcoin::TxIn {
        previous_output: bitcoin::OutPoint::new(
            bitcoin::Txid::from_byte_array(i.previous_output.txid), i.previous_output.vout),
        script_sig: i.script_sig.clone().into(),
        sequence: bitcoin::Sequence(i.sequence),
        witness: i.witness.clone(),
    }).collect();
    let output = tx.output.iter().map(|o| bitcoin::TxOut {
        value: bitcoin::Amount::from_sat(o.value),
        script_pubkey: o.script_pubkey.clone().into(),
    }).collect();
    let version = Version(tx.version);
    let lock_time = LockTime::from_consensus(tx.lock_time);
    bitcoin::consensus::serialize(&bitcoin::Transaction { version, lock_time, input, output })
}

/// Writes a transaction as hexadecimal text, as a node takes it.
pub fn raw_transaction_hex(tx: &Transaction) -> (r: String)
    ensures
        r@ == hex_text(consensus_encoding(tx@)),
{
    encode_hex(&serialize_transaction(tx))
}

} // verus!
