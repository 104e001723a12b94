//! The digest that a signature on a script path commits to.

use bitcoin::absolute::LockTime;
use bitcoin::hashes::Hash as HashOutput;
use bitcoin::sighash::{Prevouts, SighashCache};
use bitcoin::transaction::Version;
use bitcoin::{Amount, ScriptBuf, Sequence, TapLeafHash, Txid};
use bitcoin::{
    OutPoint as ChainOutPoint, TapSighashType as ChainSighashType, Transaction as ChainTransaction,
    TxIn as ChainTxIn, TxOut as ChainTxOut,
};
use vstd::prelude::*;

use crate::error::HtlcError;
use crate::transaction::{OutPoint, Transaction, TransactionView, TxIn, TxInView, TxOut, TxOutView};
use crate::transaction::{inputs_view, outputs_view};

verus! {

/// Which inputs and outputs a signature covers.
#[derive(Clone, Copy, Debug, PartialEq, Eq)]
pub enum TapSighashType {
    /// As `All`, and not written behind the signature.
    Default,
    /// Every output.
    All,
    /// No output.
    NoOutput,
    /// The output at the index of the input.
    Single,
    /// Every output, and of the inputs only the signed one.
    AllPlusAnyoneCanPay,
    /// No output, and of the inputs only the signed one.
    NonePlusAnyoneCanPay,
    /// The output at the index of the input, and of the inputs only the signed one.
    SinglePlusAnyoneCanPay,
}

impl TapSighashType {
    /// The byte that stands for the type.
    pub open spec fn byte(self) -> u8 {
        match self {
            TapSighashType::Default => 0x00,
            TapSighashType::All => 0x01,
            TapSighashType::NoOutput => 0x02,
            TapSighashType::Single => 0x03,
            TapSighashType::AllPlusAnyoneCanPay => 0x81,
            TapSighashType::NonePlusAnyoneCanPay => 0x82,
            TapSighashType::SinglePlusAnyoneCanPay => 0x83,
        }
    }

    /// Gives the byte that stands for the type.
    pub fn to_byte(self) -> (r: u8)
        ensures
            r == self.byte(),
    {
        match self {
            TapSighashType::Default => 0x00,
            TapSighashType::All => 0x01,
            TapSighashType::NoOutput => 0x02,
            TapSighashType::Single => 0x03,
            TapSighashType::AllPlusAnyoneCanPay => 0x81,
            TapSighashType::NonePlusAnyoneCanPay => 0x82,
            TapSighashType::SinglePlusAnyoneCanPay => 0x83,
        }
    }
}

/// Whether a byte stands for a type.
pub open spec fn is_sighash_byte(byte: u8) -> bool {
    exists|t: TapSighashType| #[trigger] t.byte() == byte
}

/// Whether others may add inputs without breaking a signature of the type.
pub open spec fn anyone_can_pay(byte: u8) -> bool {
    byte >= 0x80
}

/// Whether a signature of the type covers no output but the one at the index of the input.
pub open spec fn covers_single_output(byte: u8) -> bool {
    byte == 0x03 || byte == 0x83
}

/// Whether a signature of the type covers no output.
pub open spec fn covers_no_output(byte: u8) -> bool {
    byte == 0x02 || byte == 0x82
}

/// What a signature on a script path commits to.
#[verifier::ext_equal]
pub struct SigningData {
    /// The byte of the signature's type.
    pub sighash_type: u8,
    pub version: i32,
    pub lock_time: u32,
    /// The outpoint and the sequence of each covered input.
    pub inputs: Seq<(OutPoint, u32)>,
    /// The outputs that the covered inputs spend.
    pub spent: Seq<TxOutView>,
    /// The covered outputs.
    pub outputs: Seq<TxOutView>,
    /// The index of the signed input, where all inputs are covered.
    pub position: Option<u32>,
    /// The hash of the script that is executed.
    pub leaf_hash: Seq<u8>,
}

/// What a signature of a given type on one input of a transaction commits to.
pub open spec fn signing_data(
    tx: TransactionView,
    input_index: usize,
    prevouts: Seq<TxOutView>,
    leaf_hash: Seq<u8>,
    sighash_type: u8,
) -> SigningData {
    let i = input_index as int;
    let one = anyone_can_pay(sighash_type);
    let points = Seq::new(
        tx.input.len(),
        |j: int| (tx.input[j].previous_output, tx.input[j].sequence),
    );
    SigningData {
        sighash_type,
        version: tx.version,
        lock_time: tx.lock_time,
        inputs: if one {
            seq![points[i]]
        } else {
            points
        },
        spent: if one {
            seq![prevouts[i]]
        } else {
            prevouts
        },
        outputs: if covers_no_output(sighash_type) {
            Seq::empty()
        } else if covers_single_output(sighash_type) {
            seq![tx.output[i]]
        } else {
            tx.output
        },
        position: if one {
            None
        } else {
            Some(input_index as u32)
        },
        leaf_hash,
    }
}

/// Whether there is a digest to sign: one spent output for each input, and the input and the
/// output that the type singles out are there.
pub open spec fn has_digest(
    tx: TransactionView,
    input_index: usize,
    prevouts: Seq<TxOutView>,
    sighash_type: u8,
) -> bool {
    &&& prevouts.len() == tx.input.len()
    &&& anyone_can_pay(sighash_type) ==> input_index < tx.input.len()
    &&& covers_single_output(sighash_type) ==> input_index < tx.output.len()
}

/// The digest of what a signature commits to.
pub uninterp spec fn script_spend_digest(data: SigningData) -> Seq<u8>;

/// What an input holds apart from its witness: transaction id, output index, script, sequence.
type PlainInput = ([u8; 32], u32, Vec<u8>, u32);

/// What an output holds: value and script.
type PlainOutput = (u64, Vec<u8>);

/// Whether an input was taken apart faithfully.
spec fn same_input(plain: PlainInput, input: TxIn) -> bool {
    &&& plain.0 == input.previous_output.txid
    &&& plain.1 == input.previous_output.vout
    &&& plain.2@ == input.script_sig@
    &&& plain.3 == input.sequence
}

/// Whether some inputs were taken apart faithfully.
spec fn same_inputs(plain: Seq<PlainInput>, inputs: Seq<TxIn>) -> bool {
    &&& plain.len() == inputs.len()
    &&& forall|i: int| 0 <= i < inputs.len() ==> same_input(#[trigger] plain[i], inputs[i])
}

/// Whether some outputs were taken apart faithfully.
spec fn same_outputs(plain: Seq<PlainOutput>, outputs: Seq<TxOut>) -> bool {
    &&& plain.len() == outputs.len()
    &&& forall|i: int|
        0 <= i < outputs.len() ==> (#[trigger] plain[i]).0 == outputs[i].value && plain[i].1@
            == outputs[i].script_pubkey@
}

/// Takes inputs apart.
fn plain_inputs(inputs: &Vec<TxIn>) -> (r: Vec<PlainInput>)
    ensures
        same_inputs(r@, inputs@),
{
    let mut plain: Vec<PlainInput> = Vec::new();
    let mut i: usize = 0;
    while i < inputs.len()
        invariant
            i <= inputs@.len(),
            same_inputs(plain@, inputs@.take(i as int)),
        decreases inputs.len() - i,
    {
        let input = &inputs[i];
        let point = input.previous_output;
        plain.push((point.txid, point.vout, input.script_sig.clone(), input.sequence));
        i += 1;
    }
    assert(inputs@.take(i as int) =~= inputs@);
    plain
}

/// Takes outputs apart.
fn plain_outputs(outputs: &Vec<TxOut>) -> (r: Vec<PlainOutput>)
    ensures
        same_outputs(r@, outputs@),
{
    let mut plain: Vec<PlainOutput> = Vec::new();
    let mut i: usize = 0;
    while i < outputs.len()
        invariant
            i <= outputs@.len(),
            same_outputs(plain@, outputs@.take(i as int)),
        decreases outputs.len() - i,
    {
        plain.push((outputs[i].value, outputs[i].script_pubkey.clone()));
        i += 1;
    }
    assert(outputs@.take(i as int) =~= outputs@);
    plain
}

/// The transaction that plain inputs and outputs make up. No input has a witness.
spec fn plain_transaction(
    version: i32,
    lock_time: u32,
    inputs: Seq<PlainInput>,
    outputs: Seq<PlainOutput>,
) -> TransactionView {
    TransactionView {
        version,
        lock_time,
        input: inputs.map_values(
            |i: PlainInput|
                TxInView {
                    previous_output: OutPoint { txid: i.0, vout: i.1 },
                    script_sig: i.2@,
                    sequence: i.3,
                    witness: Seq::empty(),
                },
        ),
        output: plain_outputs_view(outputs),
    }
}

/// What each of some plain outputs holds.
spec fn plain_outputs_view(outputs: Seq<PlainOutput>) -> Seq<TxOutView> {
    outputs.map_values(|o: PlainOutput| TxOutView { value: o.0, script_pubkey: o.1@ })
}

/// Calls `taproot_script_spend_signature_hash` of `bitcoin::sighash::SighashCache` with all spent
/// outputs. The digest it yields is that of the data which the type of the signature selects, and
/// nothing else of the transaction plays a part: neither scripts of inputs nor witnesses, nor, for
/// the types that allow it, the other inputs and outputs. The call fails where `has_digest` does
/// not hold.
#[verifier::external_body]
fn script_spend_sighash(
    version: i32,
    lock_time: u32,
    inputs: Vec<PlainInput>,
    outputs: Vec<PlainOutput>,
    prevouts: Vec<PlainOutput>,
    input_index: usize,
    leaf_hash: &[u8; 32],
    sighash_type: u8,
) -> (r: [u8; 32])
    requires
        is_sighash_byte(sighash_type),
        has_digest(
            plain_transaction(version, lock_time, inputs@, outputs@),
            input_index,
            plain_outputs_view(prevouts@),
            sighash_type,
        ),
    ensures
        r@ == script_spend_digest(
            signing_data(
                plain_transaction(version, lock_time, inputs@, outputs@),
                input_index,
                plain_outputs_view(prevouts@),
                leaf_hash@,
                sighash_type,
            ),
        ),
{
    let out = |(v, s)| ChainTxOut { value: Amount::from_sat(v), script_pubkey: ScriptBuf::from(s) };
    SighashCache::new(ChainTransaction {
        version: Version(version),
        lock_time: LockTime::from_consensus(lock_time),
        input: inputs.into_iter().map(|(t, v, s, q)| ChainTxIn {
            previous_output: ChainOutPoint::new(Txid::from_byte_array(t), v),
            script_sig: ScriptBuf::from(s),
            sequence: Sequence(q),
            ..Default::default()
        }).collect(),
        output: outputs.into_iter().map(out).collect(),
    }).taproot_script_spend_signature_hash(
        input_index, &Prevouts::All(&Vec::from_iter(prevouts.into_iter().map(out))),
        TapLeafHash::from_byte_array(*leaf_hash), ChainSighashType::from_consensus_u8(sighash_type).unwrap(),
    ).unwrap().to_byte_array()
}

/// An error of `bitcoin::secp256k1`, carried and not looked into.
#[verifier::external_type_specification]
#[verifier::external_body]
pub struct ExSecpError(bitcoin::secp256k1::Error);

/// Calls `Message::from_digest_slice` of `bitcoin::secp256k1`, which takes 32 bytes as they are
/// and refuses any other number of bytes.
#[verifier::external_body]
fn message_from_digest(digest: &[u8]) -> (r: Result<[u8; 32], bitcoin::secp256k1::Error>)
    ensures
        r is Ok <==> digest@.len() == 32,
        r matches Ok(message) ==> message@ == digest@,
{
    bitcoin::secp256k1::Message::from_digest_slice(digest).map(|m| *m.as_ref())
}

/// Computes the message that a signature on one input of `tx` signs when it spends a script path.
pub fn compute_taproot_sighash(
    tx: &Transaction,
    input_index: usize,
    prevouts: &Vec<TxOut>,
    leaf_hash: &[u8; 32],
    sighash_type: TapSighashType,
) -> (r: Result<[u8; 32], HtlcError>)
    requires
        has_digest(tx@, input_index, outputs_view(prevouts@), sighash_type.byte()),
    ensures
        r matches Ok(message) && message@ == script_spend_digest(
            signing_data(
                tx@,
                input_index,
                outputs_view(prevouts@),
                leaf_hash@,
                sighash_type.byte(),
            ),
        ),
{
    let inputs = plain_inputs(&tx.input);
    let outputs = plain_outputs(&tx.output);
    let spent = plain_outputs(prevouts);
    proof {
        let plain = plain_transaction(tx.version, tx.lock_time, inputs@, outputs@);
        assert(plain_outputs_view(outputs@) =~= outputs_view(tx.output@));
        assert(plain_outputs_view(spent@) =~= outputs_view(prevouts@));
        assert(plain.input.len() == tx@.input.len());
        assert(signing_data(
            plain,
            input_index,
            plain_outputs_view(spent@),
            leaf_hash@,
            sighash_type.byte(),
        ) =~= signing_data(
            tx@,
            input_index,
            outputs_view(prevouts@),
            leaf_hash@,
            sighash_type.byte(),
        ));
    }
    let digest = script_spend_sighash(
        tx.version,
        tx.lock_time,
        inputs,
        outputs,
        spent,
        input_index,
        leaf_hash,
        sighash_type.to_byte(),
    );
    match message_from_digest(digest.as_slice()) {
        Ok(message) => Ok(message),
        Err(_) => Err(HtlcError::InvalidMessage),
    }
}

} // verus!
