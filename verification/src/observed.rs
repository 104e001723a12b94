//! What a caller observes of single operations: what comes out, in terms of what went in.

use vstd::prelude::*;

use crate::address::{Address, Network, Payload};
use crate::contract::{HtlcFunded, HTLC};
use crate::error::HtlcError;
use crate::fields::{lemma_plans, lemma_shows, lemma_signed, same_input, same_output};
use crate::hexadecimal::{hex_bytes, law_hex_round_trip};
use crate::scripts::HtlcScripts;
use crate::sighash::{compute_taproot_sighash, script_spend_digest, signing_data};
use crate::sighash::{SigningData, TapSighashType};
use crate::spending::{attach_witness, plan_spend, sequence_from_lock, SpendPlan};
use crate::taproot::{generator_bytes, nums_key, nums_key_bytes, script_leaf_hash, sha256_digest};
use crate::taproot::{two_leaf_output, TaprootSpendInfo};
use crate::transaction::{add_fee_to_txn, inputs_view, outputs_view, raw_transaction_hex};
use crate::transaction::{consensus_encoding, OutPoint, Transaction, TxOut};
use crate::witness::witness_items;
use crate::witness_building::lay_witness;

verus! {

/// The words of every error are fixed, but for those of the builder, which are reported as they
/// are.
pub proof fn law_words_of_errors(error: &HtlcError, r: String)
    requires
        call_ensures(HtlcError::message, (error,), r),
    ensures
        r@ == (match *error {
            HtlcError::MissingFields => "Missing required fields for redeem transaction"@,
            HtlcError::PreimageRequired => "Preimage is required"@,
            HtlcError::InvalidNumsPoint => "G_X hash should be a valid x-only point"@,
            HtlcError::InvalidPublicKey => "malformed public key"@,
            HtlcError::InvalidMessage => "message was not 32 bytes (do you need to hash?)"@,
            HtlcError::FeeNotCovered => "Fee UTXO value is less than or equal to fee"@,
            HtlcError::SignatureBuilding(words) => words@,
        }),
{
}

/// The script of an address holds what the address pays to, byte for byte, between the opcodes of
/// its kind.
pub proof fn law_script_of_an_address(address: &Address, r: Vec<u8>)
    requires
        call_ensures(Address::script_pubkey, (address,), r),
    ensures
        address.payload matches Payload::PubkeyHash(hash) ==> {
            &&& r@.len() == 25
            &&& r@[0] == 0x76 && r@[1] == 0xa9 && r@[2] == 0x14
            &&& forall|i: int| 0 <= i < 20 ==> #[trigger] r@[3 + i] == hash@[i]
            &&& r@[23] == 0x88 && r@[24] == 0xac
        },
        address.payload matches Payload::ScriptHash(hash) ==> {
            &&& r@.len() == 23
            &&& r@[0] == 0xa9 && r@[1] == 0x14
            &&& forall|i: int| 0 <= i < 20 ==> #[trigger] r@[2 + i] == hash@[i]
            &&& r@[22] == 0x87
        },
        address.payload matches Payload::WitnessProgram { version, program } ==> {
            &&& r@.len() == 2 + program@.len()
            &&& version == 0 ==> r@[0] == 0
            &&& 0 < version <= 16 ==> r@[0] == 0x50 + version
            &&& program@.len() < 256 ==> r@[1] == program@.len()
            &&& forall|i: int| 0 <= i < program@.len() ==> #[trigger] r@[2 + i] == program@[i]
        },
{
}

/// Two addresses that pay to the same have the same script, on whichever networks they are.
pub proof fn law_network_is_not_in_the_script(a: &Address, b: &Address, x: Vec<u8>, y: Vec<u8>)
    requires
        a.payload == b.payload,
        call_ensures(Address::script_pubkey, (a,), x),
        call_ensures(Address::script_pubkey, (b,), y),
    ensures
        x@ == y@,
{
}

/// The taproot address of a key is on the network that was asked for and pays to version 1 of
/// witness programs, the program being the key.
pub proof fn law_taproot_address(output_key: &[u8; 32], network: Network, r: Address)
    requires
        call_ensures(Address::p2tr_tweaked, (output_key, network), r),
    ensures
        r.network == network,
        r.payload matches Payload::WitnessProgram { version, program } && version == 1 && program@
            == output_key@,
{
}

/// The key that nobody can sign with is the hash of the generator.
pub proof fn law_nums_key(r: Result<[u8; 32], HtlcError>)
    requires
        call_ensures(nums_key, (), r),
    ensures
        r matches Ok(key) && key@ == sha256_digest(generator_bytes()) && key@ == nums_key_bytes(),
{
}

/// A tree is made of the leaves that it was given, in their order, over the key that nobody can
/// sign with.
pub proof fn law_tree_of_two_leaves(
    first: &Vec<u8>,
    second: &Vec<u8>,
    r: Result<TaprootSpendInfo, HtlcError>,
)
    requires
        call_ensures(TaprootSpendInfo::with_leaves, (first, second), r),
    ensures
        r matches Ok(info) && info@.internal_key == nums_key_bytes() && info@.first == first@
            && info@.second == second@,
{
}

/// The key that a tree shows is that of its internal key and its two leaves.
pub proof fn law_key_of_a_tree(info: &TaprootSpendInfo, r: &[u8; 32])
    requires
        call_ensures(TaprootSpendInfo::output_key, (info,), r),
    ensures
        r@ == two_leaf_output(info@.internal_key, info@.first, info@.second).0,
{
}

/// A leaf is opened with the parity of the output key, the internal key and the hash of the other
/// leaf; what is no leaf is not opened.
pub proof fn law_control_block_of_a_leaf(
    info: &TaprootSpendInfo,
    script: &Vec<u8>,
    r: Option<Vec<u8>>,
)
    requires
        call_ensures(TaprootSpendInfo::control_block, (info, script), r),
    ensures
        r is Some <==> script@ == info@.first || script@ == info@.second,
        script@ == info@.first ==> r->0@ == seq![
            (0xc0 + two_leaf_output(info@.internal_key, info@.first, info@.second).1) as u8,
        ] + info@.internal_key + script_leaf_hash(info@.second),
        script@ == info@.second ==> r->0@ == seq![
            (0xc0 + two_leaf_output(info@.internal_key, info@.first, info@.second).1) as u8,
        ] + info@.internal_key + script_leaf_hash(info@.first),
{
}

/// The tree of a contract has as its first leaf what the script writer answers to the receiver's
/// address and the payment hash, and as its second what it answers to the refund address and the
/// lock.
pub proof fn law_tree_of_a_contract<S: HtlcScripts>(
    htlc: &HTLC,
    scripts: &S,
    r: Result<TaprootSpendInfo, HtlcError>,
)
    requires
        call_ensures(HTLC::taproot_spend_info::<S>, (htlc, scripts), r),
    ensures
        r is Ok,
        r->Ok_0@.internal_key == nums_key_bytes(),
        exists|leaf: Vec<u8>| #[trigger]
            call_ensures(
                S::htlc_redeem_script,
                (scripts, &htlc.redeem_address->0, &htlc.redeem_config->0.payment_hash),
                leaf,
            ) && r->Ok_0@.first == leaf@,
        exists|leaf: Vec<u8>| #[trigger]
            call_ensures(
                S::htlc_refund_script,
                (
                    scripts,
                    &htlc.refund_config->0.refund_address,
                    htlc.refund_config->0.refund_lock,
                ),
                leaf,
            ) && r->Ok_0@.second == leaf@,
{
}

/// The tree of a contract whose spender names the fee has as its leaves what the script writer
/// answers to the same terms for such a contract.
pub proof fn law_tree_of_a_contract_with_fee<S: HtlcScripts>(
    htlc: &HTLC,
    scripts: &S,
    r: Result<TaprootSpendInfo, HtlcError>,
)
    requires
        call_ensures(HTLC::taproot_spend_info_with_fee::<S>, (htlc, scripts), r),
    ensures
        r is Ok,
        r->Ok_0@.internal_key == nums_key_bytes(),
        exists|leaf: Vec<u8>| #[trigger]
            call_ensures(
                S::htlc_redeem_script_with_fee,
                (scripts, &htlc.redeem_address->0, &htlc.redeem_config->0.payment_hash),
                leaf,
            ) && r->Ok_0@.first == leaf@,
        exists|leaf: Vec<u8>| #[trigger]
            call_ensures(
                S::htlc_refund_script_with_fee,
                (
                    scripts,
                    &htlc.refund_config->0.refund_address,
                    htlc.refund_config->0.refund_lock,
                ),
                leaf,
            ) && r->Ok_0@.second == leaf@,
{
}

/// The address of a contract is on the network that was asked for. It is the taproot address of
/// the key over the leaves that the script writer answers to the terms, the receiver's first.
pub proof fn law_address_of_a_contract<S: HtlcScripts>(
    htlc: &HTLC,
    scripts: &S,
    network: Network,
    r: Result<Address, HtlcError>,
)
    requires
        call_ensures(HTLC::address::<S>, (htlc, scripts, network), r),
    ensures
        r is Ok,
        r->Ok_0.network == network,
        r->Ok_0.payload matches Payload::WitnessProgram { version, .. } && version == 1,
        exists|redeem: Vec<u8>, refund: Vec<u8>| #[trigger]
            call_ensures(
                S::htlc_redeem_script,
                (scripts, &htlc.redeem_address->0, &htlc.redeem_config->0.payment_hash),
                redeem,
            ) && #[trigger] call_ensures(
                S::htlc_refund_script,
                (
                    scripts,
                    &htlc.refund_config->0.refund_address,
                    htlc.refund_config->0.refund_lock,
                ),
                refund,
            ) && r->Ok_0.payload->program@ == two_leaf_output(
                nums_key_bytes(),
                redeem@,
                refund@,
            ).0,
{
}

/// The address of a contract whose spender names the fee is on the network that was asked for. It
/// is the taproot address of the key over the leaves that the script writer answers to the terms
/// for such a contract, the receiver's first.
pub proof fn law_address_of_a_contract_with_fee<S: HtlcScripts>(
    htlc: &HTLC,
    scripts: &S,
    network: Network,
    r: Result<Address, HtlcError>,
)
    requires
        call_ensures(HTLC::address_with_fee::<S>, (htlc, scripts, network), r),
    ensures
        r is Ok,
        r->Ok_0.network == network,
        r->Ok_0.payload matches Payload::WitnessProgram { version, .. } && version == 1,
        exists|redeem: Vec<u8>, refund: Vec<u8>| #[trigger]
            call_ensures(
                S::htlc_redeem_script_with_fee,
                (scripts, &htlc.redeem_address->0, &htlc.redeem_config->0.payment_hash),
                redeem,
            ) && #[trigger] call_ensures(
                S::htlc_refund_script_with_fee,
                (
                    scripts,
                    &htlc.refund_config->0.refund_address,
                    htlc.refund_config->0.refund_lock,
                ),
                refund,
            ) && r->Ok_0.payload->program@ == two_leaf_output(
                nums_key_bytes(),
                redeem@,
                refund@,
            ).0,
{
}

/// A new contract knows nothing.
pub proof fn law_new_contract(r: HTLC)
    requires
        call_ensures(HTLC::default, (), r),
    ensures
        r.htlc_funded_utxo is None && r.redeem_address is None && r.redeem_config is None
            && r.refund_config is None,
{
}

/// The sequence number of a lock is its remainder modulo 65536.
pub proof fn law_sequence_of_a_lock(refund_lock: i64, r: u32)
    requires
        call_ensures(sequence_from_lock, (refund_lock,), r),
    ensures
        r < 0x1_0000,
        (refund_lock - r) % 0x1_0000 == 0,
{
}

/// Each type of signature has its own byte, which is that of the standard.
pub proof fn law_bytes_of_sighash_types(kind: TapSighashType, r: u8)
    requires
        call_ensures(TapSighashType::to_byte, (kind,), r),
    ensures
        kind is Default ==> r == 0x00,
        kind is All ==> r == 0x01,
        kind is NoOutput ==> r == 0x02,
        kind is Single ==> r == 0x03,
        kind is AllPlusAnyoneCanPay ==> r == 0x81,
        kind is NonePlusAnyoneCanPay ==> r == 0x82,
        kind is SinglePlusAnyoneCanPay ==> r == 0x83,
{
}

/// The text of a transaction writes its bytes.
pub proof fn law_text_of_a_transaction(tx: &Transaction, r: String)
    requires
        call_ensures(raw_transaction_hex, (tx,), r),
    ensures
        r@.len() == 2 * consensus_encoding(tx@).len(),
        hex_bytes(r@) == consensus_encoding(tx@),
        forall|i: int|
            0 <= i < r@.len() ==> '0' <= #[trigger] r@[i] <= '9' || 'a' <= r@[i] <= 'f',
{
    law_hex_round_trip(consensus_encoding(tx@));
}

/// Whether a character is the digit of a value under 16, in either case.
pub open spec fn is_digit_of(c: char, value: int) -> bool {
    ||| 0 <= value < 10 && c as int == 0x30 + value
    ||| 10 <= value < 16 && c as int == 0x61 + value - 10
    ||| 10 <= value < 16 && c as int == 0x41 + value - 10
}

/// A byte that a text writes has its high digit first.
pub proof fn law_bytes_of_a_text(text: Seq<char>, i: int, high: int, low: int)
    requires
        0 <= i,
        2 * i + 1 < text.len(),
        is_digit_of(text[2 * i], high),
        is_digit_of(text[2 * i + 1], low),
    ensures
        hex_bytes(text).len() == text.len() / 2,
        hex_bytes(text)[i] == 16 * high + low,
{
}

/// After a fee was added, the last input spends the output that pays the fee, without lock, script
/// or witness, and the last output returns what the fee leaves to the address that was named. All
/// that was there before stays where it was. Nothing is added where the output is not worth more
/// than the fee.
pub proof fn law_added_fee<'a>(
    txn: &'a mut Transaction,
    fee_outpoint: OutPoint,
    fee_utxo_value: u64,
    fee_sats: u64,
    fee_refund_address: Address,
    r: Result<&'a mut Transaction, HtlcError>,
)
    requires
        call_ensures(
            add_fee_to_txn,
            (txn, fee_outpoint, fee_utxo_value, fee_sats, fee_refund_address),
            r,
        ),
    ensures
        r is Ok <==> fee_sats < fee_utxo_value,
        r matches Err(e) ==> e == HtlcError::FeeNotCovered && *final(txn) == *old(txn),
        r matches Ok(grown) ==> {
            let before = *old(txn);
            let input = grown.input@[before.input@.len() as int];
            let output = grown.output@[before.output@.len() as int];
            &&& *final(txn) == *final(grown)
            &&& grown.version == before.version
            &&& grown.lock_time == before.lock_time
            &&& grown.input@.len() == before.input@.len() + 1
            &&& grown.output@.len() == before.output@.len() + 1
            &&& input.previous_output == fee_outpoint
            &&& input.script_sig@.len() == 0
            &&& input.sequence == 0xffff_ffff
            &&& witness_items(input.witness).len() == 0
            &&& output.value == fee_utxo_value - fee_sats
            &&& output.script_pubkey@ == fee_refund_address.script()
            &&& forall|i: int|
                0 <= i < before.input@.len() ==> (#[trigger] grown.input@[i]).previous_output
                    == before.input@[i].previous_output && grown.input@[i].script_sig@
                    == before.input@[i].script_sig@ && grown.input@[i].sequence
                    == before.input@[i].sequence && witness_items(grown.input@[i].witness)
                    == witness_items(before.input@[i].witness)
            &&& forall|i: int|
                0 <= i < before.output@.len() ==> (#[trigger] grown.output@[i]).value
                    == before.output@[i].value && grown.output@[i].script_pubkey@
                    == before.output@[i].script_pubkey@
        },
{
    if let Ok(grown) = r {
        let before = *old(txn);
        assert(inputs_view(grown.input@).len() == inputs_view(before.input@).len() + 1);
        assert(outputs_view(grown.output@).len() == outputs_view(before.output@).len() + 1);
        assert forall|i: int| 0 <= i < before.input@.len() implies same_input(
            #[trigger] grown.input@[i],
            before.input@[i],
        ) by {
            assert(inputs_view(grown.input@)[i] == inputs_view(before.input@)[i]);
        }
        assert forall|i: int| 0 <= i < before.output@.len() implies same_output(
            #[trigger] grown.output@[i],
            before.output@[i],
        ) by {
            assert(outputs_view(grown.output@)[i] == outputs_view(before.output@)[i]);
        }
        let n = before.input@.len() as int;
        let m = before.output@.len() as int;
        assert(inputs_view(grown.input@)[n] == grown.input@[n]@);
        assert(outputs_view(grown.output@)[m] == grown.output@[m]@);
    }
}

/// A witness is put on the first input, and nothing else changes.
pub proof fn law_attached_witness(tx: Transaction, witness: bitcoin::Witness, r: Transaction)
    requires
        tx.input@.len() > 0,
        call_ensures(attach_witness, (tx, witness), r),
    ensures
        witness_items(r.input@[0].witness) == witness_items(witness),
        r.version == tx.version,
        r.lock_time == tx.lock_time,
        r.input@.len() == tx.input@.len(),
        r.output@.len() == tx.output@.len(),
        r.input@[0].previous_output == tx.input@[0].previous_output,
        r.input@[0].script_sig@ == tx.input@[0].script_sig@,
        r.input@[0].sequence == tx.input@[0].sequence,
        forall|i: int|
            1 <= i < r.input@.len() ==> (#[trigger] r.input@[i]).previous_output
                == tx.input@[i].previous_output && r.input@[i].script_sig@
                == tx.input@[i].script_sig@ && r.input@[i].sequence
                == tx.input@[i].sequence && witness_items(r.input@[i].witness)
                == witness_items(tx.input@[i].witness),
        forall|i: int|
            0 <= i < r.output@.len() ==> (#[trigger] r.output@[i]).value
                == tx.output@[i].value && r.output@[i].script_pubkey@
                == tx.output@[i].script_pubkey@,
{
    lemma_signed(r, tx, witness_items(witness));
}

/// Noting the funding of a contract changes nothing else of it.
pub proof fn law_noted_funding(htlc: &mut HTLC, outpoint: OutPoint, amount: u64, r: ())
    requires
        call_ensures(HTLC::set_funded_htlc, (htlc, outpoint, amount), r),
    ensures
        final(htlc).htlc_funded_utxo == Some(HtlcFunded { htlc_outpoint: outpoint, amount }),
        final(htlc).redeem_address == old(htlc).redeem_address,
        final(htlc).redeem_config == old(htlc).redeem_config,
        final(htlc).refund_config == old(htlc).refund_config,
{
}

/// Noting the receiver's address changes nothing else of a contract.
pub proof fn law_noted_redeem_address(htlc: &mut HTLC, address: Address, r: ())
    requires
        call_ensures(HTLC::set_redeem_address, (htlc, address), r),
    ensures
        final(htlc).redeem_address == Some(address),
        final(htlc).htlc_funded_utxo == old(htlc).htlc_funded_utxo,
        final(htlc).redeem_config == old(htlc).redeem_config,
        final(htlc).refund_config == old(htlc).refund_config,
{
}

/// A plan moves the funded output to the destination, less the fee, and hands on the key, the leaf
/// and the sequence number that it was given.
pub proof fn law_planned_spend(
    funded: &HtlcFunded,
    output_key: &[u8; 32],
    leaf_hash: [u8; 32],
    sequence: u32,
    destination: &Address,
    fee: u64,
    r: SpendPlan,
)
    requires
        call_ensures(plan_spend, (funded, output_key, leaf_hash, sequence, destination, fee), r),
    ensures
        r.transaction.version == 2,
        r.transaction.lock_time == 0,
        r.transaction.input@.len() == 1,
        r.transaction.input@[0].previous_output == funded.htlc_outpoint,
        r.transaction.input@[0].script_sig@.len() == 0,
        r.transaction.input@[0].sequence == sequence,
        witness_items(r.transaction.input@[0].witness).len() == 0,
        r.transaction.output@.len() == 1,
        fee <= funded.amount ==> r.transaction.output@[0].value == funded.amount - fee,
        r.transaction.output@[0].script_pubkey@ == destination.script(),
        r.prevouts@.len() == 1,
        r.prevouts@[0].value == funded.amount,
        r.prevouts@[0].script_pubkey@ == seq![0x51u8, output_key@.len() as u8] + output_key@,
        r.leaf_hash@ == leaf_hash@,
{
    lemma_plans(r, *funded, output_key@, leaf_hash@, sequence, destination.script(), fee);
}

/// A witness without a preimage shows, from the bottom, the parts of the message in their order,
/// all but the last byte of the signature, that byte, that byte plus one, the script and its
/// control block.
pub proof fn law_laid_witness(
    components: &Vec<Vec<u8>>,
    signature: &[u8; 64],
    script: &Vec<u8>,
    control_block: &Vec<u8>,
    r: bitcoin::Witness,
)
    requires
        call_ensures(
            lay_witness,
            (components, signature, None, script, control_block),
            r,
        ),
    ensures
        witness_items(r).len() == components@.len() + 5,
        forall|i: int|
            0 <= i < components@.len() ==> #[trigger] witness_items(r)[i] == components@[i]@,
        witness_items(r)[components@.len() as int].len() == 63,
        forall|i: int|
            0 <= i < 63 ==> witness_items(r)[components@.len() as int][i]
                == #[trigger] signature@[i],
        witness_items(r)[components@.len() as int + 1] == seq![signature@[63]],
        signature@[63] < 255 ==> witness_items(r)[components@.len() as int + 2] == seq![
            (signature@[63] + 1) as u8,
        ],
        witness_items(r)[components@.len() as int + 3] == script@,
        witness_items(r)[components@.len() as int + 4] == control_block@,
{
    lemma_shows(components@, *signature, None, script@, control_block@);
}

/// A witness with a preimage shows, from the bottom, the parts of the message in their order, all
/// but the last byte of the signature, that byte, that byte plus one, the preimage, the script and
/// its control block.
pub proof fn law_laid_witness_with_preimage(
    components: &Vec<Vec<u8>>,
    signature: &[u8; 64],
    preimage: &Vec<u8>,
    script: &Vec<u8>,
    control_block: &Vec<u8>,
    r: bitcoin::Witness,
)
    requires
        call_ensures(
            lay_witness,
            (components, signature, Some(preimage), script, control_block),
            r,
        ),
    ensures
        witness_items(r).len() == components@.len() + 6,
        forall|i: int|
            0 <= i < components@.len() ==> #[trigger] witness_items(r)[i] == components@[i]@,
        witness_items(r)[components@.len() as int].len() == 63,
        forall|i: int|
            0 <= i < 63 ==> witness_items(r)[components@.len() as int][i]
                == #[trigger] signature@[i],
        witness_items(r)[components@.len() as int + 1] == seq![signature@[63]],
        signature@[63] < 255 ==> witness_items(r)[components@.len() as int + 2] == seq![
            (signature@[63] + 1) as u8,
        ],
        witness_items(r)[components@.len() as int + 3] == preimage@,
        witness_items(r)[components@.len() as int + 4] == script@,
        witness_items(r)[components@.len() as int + 5] == control_block@,
{
    lemma_shows(components@, *signature, Some(preimage@), script@, control_block@);
}

/// What is signed is the digest of the version, the lock time, the leaf, the type, and of the
/// inputs, the outputs that they spend and the outputs that the type covers, each as the
/// transaction holds it.
pub proof fn law_signed_message(
    tx: &Transaction,
    input_index: usize,
    prevouts: &Vec<TxOut>,
    leaf_hash: &[u8; 32],
    kind: TapSighashType,
    r: Result<[u8; 32], HtlcError>,
)
    requires
        prevouts@.len() == tx.input@.len(),
        kind is AllPlusAnyoneCanPay || kind is NonePlusAnyoneCanPay
            || kind is SinglePlusAnyoneCanPay ==> input_index < tx.input@.len(),
        kind is Single || kind is SinglePlusAnyoneCanPay ==> input_index < tx.output@.len(),
        call_ensures(
            compute_taproot_sighash,
            (tx, input_index, prevouts, leaf_hash, kind),
            r,
        ),
    ensures
        exists|d: SigningData|
            {
                &&& r matches Ok(message) && message@ == #[trigger] script_spend_digest(d)
                &&& d.sighash_type == (match kind {
                    TapSighashType::Default => 0x00u8,
                    TapSighashType::All => 0x01u8,
                    TapSighashType::NoOutput => 0x02u8,
                    TapSighashType::Single => 0x03u8,
                    TapSighashType::AllPlusAnyoneCanPay => 0x81u8,
                    TapSighashType::NonePlusAnyoneCanPay => 0x82u8,
                    TapSighashType::SinglePlusAnyoneCanPay => 0x83u8,
                })
                &&& d.version == tx.version
                &&& d.lock_time == tx.lock_time
                &&& d.leaf_hash == leaf_hash@
                &&& if kind is AllPlusAnyoneCanPay || kind is NonePlusAnyoneCanPay
                    || kind is SinglePlusAnyoneCanPay {
                    &&& d.position is None
                    &&& d.inputs.len() == 1
                    &&& d.inputs[0].0 == tx.input@[input_index as int].previous_output
                    &&& d.inputs[0].1 == tx.input@[input_index as int].sequence
                    &&& d.spent.len() == 1
                    &&& d.spent[0].value == prevouts@[input_index as int].value
                    &&& d.spent[0].script_pubkey == prevouts@[input_index as int].script_pubkey@
                } else {
                    &&& d.position == Some(input_index as u32)
                    &&& d.inputs.len() == tx.input@.len()
                    &&& d.spent.len() == prevouts@.len()
                    &&& forall|i: int|
                        0 <= i < tx.input@.len() ==> (#[trigger] d.inputs[i]) == (
                            tx.input@[i].previous_output,
                            tx.input@[i].sequence,
                        )
                    &&& forall|i: int|
                        0 <= i < prevouts@.len() ==> (#[trigger] d.spent[i]).value
                            == prevouts@[i].value && d.spent[i].script_pubkey
                            == prevouts@[i].script_pubkey@
                }
                &&& match kind {
                    TapSighashType::NoOutput | TapSighashType::NonePlusAnyoneCanPay => {
                        d.outputs.len() == 0
                    },
                    TapSighashType::Single | TapSighashType::SinglePlusAnyoneCanPay => {
                        &&& d.outputs.len() == 1
                        &&& d.outputs[0].value == tx.output@[input_index as int].value
                        &&& d.outputs[0].script_pubkey
                            == tx.output@[input_index as int].script_pubkey@
                    },
                    _ => {
                        &&& d.outputs.len() == tx.output@.len()
                        &&& forall|i: int|
                            0 <= i < tx.output@.len() ==> (#[trigger] d.outputs[i]).value
                                == tx.output@[i].value && d.outputs[i].script_pubkey
                                == tx.output@[i].script_pubkey@
                    },
                }
            },
{
    let d = signing_data(
        tx@,
        input_index,
        outputs_view(prevouts@),
        leaf_hash@,
        kind.byte(),
    );
    assert(r matches Ok(message) && message@ == script_spend_digest(d));
}

} // verus!
