//! What holds of contracts as a whole.

use vstd::prelude::*;

use crate::address::{witness_program_script, Address, Network};
use crate::contract::{HtlcFunded, HTLC};
use crate::error::HtlcError;
use crate::hexadecimal::hex_bytes;
use crate::scripts::HtlcScripts;
use crate::sighash::{has_digest, script_spend_digest, signing_data, TapSighashType};
use crate::signature_building::{ContractComponents, SignatureBuilder};
use crate::spending::{contract_output, relative_height, spend_transaction, with_witness};
use crate::spending::{ground, ground_request};
use crate::spending::{usable_for_whole, whole_after_grinding, whole_outcome};
use crate::spending::{SpendPlan, SpendPlanView, Unlock};
use crate::taproot::{is_x_only_key, leaf_control_block, lemma_nums_key_is_a_key};
use crate::taproot::{nums_key_bytes, script_leaf_hash, two_leaf_output, two_leaf_tree, TapTree};
use crate::transaction::{total_value, unsigned_input, OutPoint, TransactionView};
use crate::transaction::{TxInView, TxOutView, SEQUENCE_MAX};
use crate::witness_building::{signature_items, witness_stack};
use crate::witness_building::WitnessRequest;

verus! {

/// A spend pays out what the contract was funded with, less the fee.
pub proof fn law_fee_is_what_is_not_paid_out(
    funded: HtlcFunded,
    sequence: u32,
    destination: Seq<u8>,
    fee: u64,
)
    requires
        fee <= funded.amount,
    ensures
        spend_transaction(funded, sequence, destination, fee).output_value() + fee
            == funded.amount,
{
    let outputs = spend_transaction(funded, sequence, destination, fee).output;
    reveal_with_fuel(total_value, 2);
    assert(outputs.drop_last() =~= Seq::empty());
}

/// Adding a fee leaves every input and every output where it was, keeps as many more inputs than
/// outputs as there were, and pays out as much more as the new output is worth.
pub proof fn law_added_fee_keeps_what_was_there(
    tx: TransactionView,
    input: TxInView,
    output: TxOutView,
)
    ensures
        tx.extended(input, output).input.take(tx.input.len() as int) == tx.input,
        tx.extended(input, output).output.take(tx.output.len() as int) == tx.output,
        tx.extended(input, output).version == tx.version,
        tx.extended(input, output).lock_time == tx.lock_time,
        tx.extended(input, output).input.len() - tx.extended(input, output).output.len()
            == tx.input.len() - tx.output.len(),
        tx.extended(input, output).output_value() == tx.output_value() + output.value,
{
    let grown = tx.extended(input, output);
    assert(grown.input.take(tx.input.len() as int) =~= tx.input);
    assert(grown.output.take(tx.output.len() as int) =~= tx.output);
    assert(grown.output.drop_last() =~= tx.output);
}

/// A signature that covers one input and one output still signs the same message after a fee was
/// added.
pub proof fn law_added_fee_keeps_single_signatures(
    tx: TransactionView,
    input: TxInView,
    output: TxOutView,
    input_index: usize,
    prevouts: Seq<TxOutView>,
    fee_prevout: TxOutView,
    leaf_hash: Seq<u8>,
)
    requires
        has_digest(
            tx,
            input_index,
            prevouts,
            TapSighashType::SinglePlusAnyoneCanPay.byte(),
        ),
    ensures
        has_digest(
            tx.extended(input, output),
            input_index,
            prevouts.push(fee_prevout),
            TapSighashType::SinglePlusAnyoneCanPay.byte(),
        ),
        script_spend_digest(
            signing_data(
                tx.extended(input, output),
                input_index,
                prevouts.push(fee_prevout),
                leaf_hash,
                TapSighashType::SinglePlusAnyoneCanPay.byte(),
            ),
        ) == script_spend_digest(
            signing_data(
                tx,
                input_index,
                prevouts,
                leaf_hash,
                TapSighashType::SinglePlusAnyoneCanPay.byte(),
            ),
        ),
{
    let kind = TapSighashType::SinglePlusAnyoneCanPay.byte();
    assert(signing_data(
        tx.extended(input, output),
        input_index,
        prevouts.push(fee_prevout),
        leaf_hash,
        kind,
    ) =~= signing_data(tx, input_index, prevouts, leaf_hash, kind));
}

/// Putting a witness in place changes nothing that a signature signs, whatever its type.
pub proof fn law_witness_is_not_signed(
    tx: TransactionView,
    items: Seq<Seq<u8>>,
    input_index: usize,
    prevouts: Seq<TxOutView>,
    leaf_hash: Seq<u8>,
    sighash_type: TapSighashType,
)
    requires
        tx.input.len() > 0,
        has_digest(tx, input_index, prevouts, sighash_type.byte()),
    ensures
        has_digest(with_witness(tx, items), input_index, prevouts, sighash_type.byte()),
        script_spend_digest(
            signing_data(
                with_witness(tx, items),
                input_index,
                prevouts,
                leaf_hash,
                sighash_type.byte(),
            ),
        ) == script_spend_digest(
            signing_data(tx, input_index, prevouts, leaf_hash, sighash_type.byte()),
        ),
{
    let kind = sighash_type.byte();
    assert(signing_data(with_witness(tx, items), input_index, prevouts, leaf_hash, kind)
        =~= signing_data(tx, input_index, prevouts, leaf_hash, kind));
}

/// A contract's output locks coins to the contract's address, on whichever chain the address is.
pub proof fn law_contract_output_is_at_its_address(
    funded: HtlcFunded,
    tree: TapTree,
    address: Address,
    network: Network,
)
    requires
        address.is_taproot(tree.output_key(), network),
    ensures
        contract_output(funded, tree.output_key()).script_pubkey == address.script(),
        contract_output(funded, tree.output_key()).value == funded.amount,
{
}

/// Every contract has the same internal key: the hash of the generator, which is a point's x
/// coordinate and which nobody knows how to sign with.
pub proof fn law_internal_key_is_the_nums_key(redeem: Seq<u8>, refund: Seq<u8>)
    ensures
        two_leaf_tree(redeem, refund).internal_key == nums_key_bytes(),
        is_x_only_key(two_leaf_tree(redeem, refund).internal_key),
{
    lemma_nums_key_is_a_key();
}

/// Both leaves of a contract can be opened, each with a control block that names the internal key
/// and the hash of the other leaf.
pub proof fn law_each_leaf_can_be_opened(redeem: Seq<u8>, refund: Seq<u8>)
    ensures
        two_leaf_tree(redeem, refund).control_block(redeem) == Some(
            leaf_control_block(
                nums_key_bytes(),
                two_leaf_output(nums_key_bytes(), redeem, refund).1,
                refund,
            ),
        ),
        two_leaf_tree(redeem, refund).control_block(refund) == Some(
            leaf_control_block(
                nums_key_bytes(),
                two_leaf_output(nums_key_bytes(), redeem, refund).1,
                redeem,
            ),
        ),
{
}

/// The output that a plan names as spent is worth what the contract was funded with and shows the
/// key of the tree that the plan's leaf belongs to.
pub proof fn law_spent_output_commits_to_the_leaf(
    htlc: HTLC,
    transaction: TransactionView,
    redeem: Seq<u8>,
    refund: Seq<u8>,
    script: Seq<u8>,
)
    requires
        script == redeem || script == refund,
    ensures
        ({
            let tree = two_leaf_tree(redeem, refund);
            let plan = htlc.plan(transaction, tree.output_key(), script);
            &&& plan.prevouts == seq![
                TxOutView {
                    value: htlc.htlc_funded_utxo->0.amount,
                    script_pubkey: witness_program_script(
                        1,
                        two_leaf_output(nums_key_bytes(), redeem, refund).0,
                    ),
                },
            ]
            &&& plan.leaf_hash == script_leaf_hash(script)
            &&& tree.control_block(script) is Some
        }),
{
}

/// The sequence number of a refund counts blocks: it is under 65536, never the number that asks
/// for no lock, and it is the lock itself where the lock fits into sixteen bits.
pub proof fn law_refund_is_locked_by_height(refund_lock: i64)
    ensures
        relative_height(refund_lock) < 0x1_0000,
        relative_height(refund_lock) != SEQUENCE_MAX,
        0 <= refund_lock < 0x1_0000 ==> relative_height(refund_lock) == refund_lock,
{
}

/// The first two items of a signature on the stack make up the signature, and the third counts
/// its last byte up by one.
pub proof fn law_signature_can_be_put_together(signature: Seq<u8>)
    requires
        signature.len() == 64,
        signature[63] < 255,
    ensures
        signature_items(signature).len() == 3,
        signature_items(signature)[0] + signature_items(signature)[1] == signature,
        signature_items(signature)[2].len() == 1,
        signature_items(signature)[2][0] == signature_items(signature)[1][0] + 1,
{
    assert(signature_items(signature)[0] + signature_items(signature)[1] =~= signature);
}

/// The stack that shows a preimage is the stack without one, with the preimage below the script.
pub proof fn law_preimage_lies_below_the_script(
    components: Seq<Seq<u8>>,
    signature: Seq<u8>,
    preimage: Seq<u8>,
    script: Seq<u8>,
    control_block: Seq<u8>,
)
    ensures
        ({
            let bare = witness_stack(components, signature, None, script, control_block);
            witness_stack(components, signature, Some(preimage), script, control_block)
                == bare.insert(bare.len() - 2, preimage)
        }),
{
    let bare = witness_stack(components, signature, None, script, control_block);
    assert(witness_stack(components, signature, Some(preimage), script, control_block)
        =~= bare.insert(bare.len() - 2, preimage));
}

/// Putting a witness in place changes nothing else of a transaction.
pub proof fn law_witness_changes_nothing_else(tx: TransactionView, items: Seq<Seq<u8>>)
    requires
        tx.input.len() > 0,
    ensures
        ({
            let signed = with_witness(tx, items);
            &&& signed.version == tx.version
            &&& signed.lock_time == tx.lock_time
            &&& signed.output == tx.output
            &&& signed.input.len() == tx.input.len()
            &&& signed.input[0].witness == items
            &&& signed.input[0].previous_output == tx.input[0].previous_output
            &&& signed.input[0].script_sig == tx.input[0].script_sig
            &&& signed.input[0].sequence == tx.input[0].sequence
            &&& forall|i: int| 0 < i < tx.input.len() ==> signed.input[i] == tx.input[i]
        }),
{
}

/// Redeeming is refused for missing fields exactly where fields are missing, and for a missing
/// preimage only where no preimage is known.
pub proof fn law_redeem_refusals<S: HtlcScripts, B: SignatureBuilder>(
    htlc: HTLC,
    scripts: &S,
    builder: &B,
    r: Result<TransactionView, HtlcError>,
)
    requires
        htlc.redeem_outcome(scripts, builder, r),
    ensures
        r == Err::<TransactionView, HtlcError>(HtlcError::MissingFields) <==> !htlc.can_redeem(),
        r == Err::<TransactionView, HtlcError>(HtlcError::PreimageRequired) ==> htlc.can_redeem()
            && htlc.redeem_config->0.preimage is None,
        r is Ok ==> htlc.can_redeem() && htlc.redeem_config->0.preimage is Some,
{
}

/// Refunding is refused for missing fields exactly where fields are missing, and never for a
/// missing preimage.
pub proof fn law_refund_refusals<S: HtlcScripts, B: SignatureBuilder>(
    htlc: HTLC,
    scripts: &S,
    builder: &B,
    r: Result<TransactionView, HtlcError>,
)
    requires
        htlc.refund_outcome(scripts, builder, r),
    ensures
        r == Err::<TransactionView, HtlcError>(HtlcError::MissingFields) <==> !htlc.can_refund(),
        r != Err::<TransactionView, HtlcError>(HtlcError::PreimageRequired),
{
}

/// Redeeming with a fee is refused for missing fields exactly where fields are missing, and for a
/// missing preimage only where no preimage is known.
pub proof fn law_redeem_with_fee_refusals<S: HtlcScripts, B: SignatureBuilder>(
    htlc: HTLC,
    scripts: &S,
    builder: &B,
    fee_amount: u64,
    r: Result<(TransactionView, Seq<u8>), HtlcError>,
)
    requires
        htlc.redeem_with_fee_outcome(scripts, builder, fee_amount, r),
    ensures
        r == Err::<(TransactionView, Seq<u8>), HtlcError>(HtlcError::MissingFields)
            <==> !htlc.can_redeem(),
        r == Err::<(TransactionView, Seq<u8>), HtlcError>(HtlcError::PreimageRequired)
            ==> htlc.can_redeem() && htlc.redeem_config->0.preimage is None,
        r is Ok ==> htlc.can_redeem() && htlc.redeem_config->0.preimage is Some,
{
}

/// Refunding with a fee is refused for missing fields exactly where fields are missing, and never
/// for a missing preimage.
pub proof fn law_refund_with_fee_refusals<S: HtlcScripts, B: SignatureBuilder>(
    htlc: HTLC,
    scripts: &S,
    builder: &B,
    fee_amount: u64,
    r: Result<(TransactionView, Seq<u8>), HtlcError>,
)
    requires
        htlc.refund_with_fee_outcome(scripts, builder, fee_amount, r),
    ensures
        r == Err::<(TransactionView, Seq<u8>), HtlcError>(HtlcError::MissingFields)
            <==> !htlc.can_refund(),
        r != Err::<(TransactionView, Seq<u8>), HtlcError>(HtlcError::PreimageRequired),
{
}

/// Whether the builder refuses neither to take a message apart nor to make the signature.
pub open spec fn is_granted<B: SignatureBuilder>(
    builder: &B,
    request: WitnessRequest,
    sighash_type: TapSighashType,
) -> bool {
    &&& forall|words: String| !#[trigger] request.components(builder, sighash_type, Err(words))
    &&& forall|words: String| !#[trigger] request.signature(builder, Err(words))
}

/// Whether the builder grinds this plan and answers what it is asked about the ground transaction.
pub open spec fn grants<B: SignatureBuilder>(
    builder: &B,
    plan: SpendPlanView,
    script: Seq<u8>,
    unlock: Unlock,
    sighash_type: TapSighashType,
) -> bool {
    forall|p: SpendPlan, g: Result<ContractComponents, String>|
        p@ == plan && #[trigger] ground(builder, p, g) ==> match g {
            Err(words) => false,
            Ok(found) => is_granted(
                builder,
                ground_request(p, found, script, unlock.bytes()),
                sighash_type,
            ),
        }
}

/// A contract that is funded and whose terms and preimage are known is redeemed if the builder
/// grants this one spend.
pub proof fn law_redeem_succeeds<S: HtlcScripts, B: SignatureBuilder>(
    htlc: HTLC,
    scripts: &S,
    builder: &B,
    r: Result<TransactionView, HtlcError>,
)
    requires
        htlc.can_redeem(),
        htlc.redeem_config->0.preimage is Some,
        forall|redeem: Vec<u8>, refund: Vec<u8>| #[trigger]
            htlc.leaves(scripts, redeem, refund) ==> grants(
                builder,
                htlc.plan(
                    htlc.redeem_transaction(0),
                    two_leaf_tree(redeem@, refund@).output_key(),
                    redeem@,
                ),
                redeem@,
                htlc.redeem_unlock(),
                TapSighashType::SinglePlusAnyoneCanPay,
            ),
        htlc.redeem_outcome(scripts, builder, r),
    ensures
        r is Ok,
{
}

/// A contract that is funded and whose terms are known is refunded if the builder grants this one
/// spend.
pub proof fn law_refund_succeeds<S: HtlcScripts, B: SignatureBuilder>(
    htlc: HTLC,
    scripts: &S,
    builder: &B,
    r: Result<TransactionView, HtlcError>,
)
    requires
        htlc.can_refund(),
        forall|redeem: Vec<u8>, refund: Vec<u8>| #[trigger]
            htlc.leaves(scripts, redeem, refund) ==> grants(
                builder,
                htlc.plan(
                    htlc.refund_transaction(0),
                    two_leaf_tree(redeem@, refund@).output_key(),
                    refund@,
                ),
                refund@,
                Unlock::Timeout,
                TapSighashType::SinglePlusAnyoneCanPay,
            ),
        htlc.refund_outcome(scripts, builder, r),
    ensures
        r is Ok,
{
}

/// A contract that is funded and whose terms and preimage are known is redeemed with a fee if the
/// builder grants this one spend.
pub proof fn law_redeem_with_fee_succeeds<S: HtlcScripts, B: SignatureBuilder>(
    htlc: HTLC,
    scripts: &S,
    builder: &B,
    fee_amount: u64,
    r: Result<(TransactionView, Seq<u8>), HtlcError>,
)
    requires
        htlc.can_redeem(),
        htlc.redeem_config->0.preimage is Some,
        forall|redeem: Vec<u8>, refund: Vec<u8>| #[trigger]
            htlc.leaves_with_fee(scripts, redeem, refund) ==> grants(
                builder,
                htlc.plan(
                    htlc.redeem_transaction(fee_amount),
                    two_leaf_tree(redeem@, refund@).output_key(),
                    redeem@,
                ),
                redeem@,
                htlc.redeem_unlock(),
                TapSighashType::Default,
            ),
        htlc.redeem_with_fee_outcome(scripts, builder, fee_amount, r),
    ensures
        r is Ok,
{
}

/// A contract that is funded and whose terms are known is refunded with a fee if the builder grants
/// this one spend.
pub proof fn law_refund_with_fee_succeeds<S: HtlcScripts, B: SignatureBuilder>(
    htlc: HTLC,
    scripts: &S,
    builder: &B,
    fee_amount: u64,
    r: Result<(TransactionView, Seq<u8>), HtlcError>,
)
    requires
        htlc.can_refund(),
        forall|redeem: Vec<u8>, refund: Vec<u8>| #[trigger]
            htlc.leaves_with_fee(scripts, redeem, refund) ==> grants(
                builder,
                htlc.plan(
                    htlc.refund_transaction(fee_amount),
                    two_leaf_tree(redeem@, refund@).output_key(),
                    refund@,
                ),
                refund@,
                Unlock::Timeout,
                TapSighashType::Default,
            ),
        htlc.refund_with_fee_outcome(scripts, builder, fee_amount, r),
    ensures
        r is Ok,
{
}

/// Whether the builder, where it grinds, changes at most the lock time of a transaction.
pub open spec fn varies_lock_time_only<B: SignatureBuilder>(builder: &B) -> bool {
    forall|p: SpendPlan, g: ContractComponents| #[trigger]
        ground(builder, p, Ok(g)) ==> g.transaction@ == (TransactionView {
            lock_time: g.transaction.lock_time,
            ..p.transaction@
        })
}

/// Whether a transaction, whatever its lock time and its witness, moves a funded output to a
/// script, less a fee, and does nothing else.
pub open spec fn moves(
    tx: TransactionView,
    funded: HtlcFunded,
    sequence: u32,
    destination: Seq<u8>,
    fee: u64,
) -> bool {
    &&& tx.version == 2
    &&& tx.input.len() == 1
    &&& tx.input[0].previous_output == funded.htlc_outpoint
    &&& tx.input[0].script_sig == Seq::<u8>::empty()
    &&& tx.input[0].sequence == sequence
    &&& tx.output == seq![
        TxOutView { value: (funded.amount - fee) as u64, script_pubkey: destination },
    ]
    &&& fee <= funded.amount ==> tx.output_value() + fee == funded.amount
}

/// What a planned transaction moves, it moves with any lock time and any witness.
proof fn lemma_signed_moves(
    tx: TransactionView,
    lock_time: u32,
    items: Seq<Seq<u8>>,
    funded: HtlcFunded,
    sequence: u32,
    destination: Seq<u8>,
    fee: u64,
)
    requires
        tx == with_witness(
            TransactionView {
                lock_time,
                ..spend_transaction(funded, sequence, destination, fee)
            },
            items,
        ),
    ensures
        moves(tx, funded, sequence, destination, fee),
{
    if fee <= funded.amount {
        law_fee_is_what_is_not_paid_out(funded, sequence, destination, fee);
    }
}

/// A redeem transaction moves the whole amount to the receiver, without a lock, if the builder
/// varies the lock time only.
pub proof fn law_redeem_pays_the_whole_amount<S: HtlcScripts, B: SignatureBuilder>(
    htlc: HTLC,
    scripts: &S,
    builder: &B,
    tx: TransactionView,
)
    requires
        varies_lock_time_only(builder),
        htlc.redeem_outcome(scripts, builder, Ok(tx)),
    ensures
        moves(
            tx,
            htlc.htlc_funded_utxo->0,
            SEQUENCE_MAX,
            htlc.redeem_address->0.script(),
            0,
        ),
{
    lemma_signed_moves(
        tx,
        tx.lock_time,
        tx.input[0].witness,
        htlc.htlc_funded_utxo->0,
        SEQUENCE_MAX,
        htlc.redeem_address->0.script(),
        0,
    );
}

/// A refund transaction moves the whole amount back to the sender, locked by height, if the builder
/// varies the lock time only.
pub proof fn law_refund_pays_the_whole_amount<S: HtlcScripts, B: SignatureBuilder>(
    htlc: HTLC,
    scripts: &S,
    builder: &B,
    tx: TransactionView,
)
    requires
        varies_lock_time_only(builder),
        htlc.refund_outcome(scripts, builder, Ok(tx)),
    ensures
        moves(
            tx,
            htlc.htlc_funded_utxo->0,
            relative_height(htlc.refund_config->0.refund_lock),
            htlc.refund_config->0.refund_address.script(),
            0,
        ),
{
    lemma_signed_moves(
        tx,
        tx.lock_time,
        tx.input[0].witness,
        htlc.htlc_funded_utxo->0,
        relative_height(htlc.refund_config->0.refund_lock),
        htlc.refund_config->0.refund_address.script(),
        0,
    );
}

/// A redeem transaction with a fee moves what the fee leaves to the receiver, without a lock, if
/// the builder varies the lock time only.
pub proof fn law_redeem_with_fee_pays_the_rest<S: HtlcScripts, B: SignatureBuilder>(
    htlc: HTLC,
    scripts: &S,
    builder: &B,
    tx: TransactionView,
    fee_amount: u64,
    message: Seq<u8>,
)
    requires
        varies_lock_time_only(builder),
        htlc.redeem_with_fee_outcome(scripts, builder, fee_amount, Ok((tx, message))),
    ensures
        moves(
            tx,
            htlc.htlc_funded_utxo->0,
            SEQUENCE_MAX,
            htlc.redeem_address->0.script(),
            fee_amount,
        ),
{
    lemma_signed_moves(
        tx,
        tx.lock_time,
        tx.input[0].witness,
        htlc.htlc_funded_utxo->0,
        SEQUENCE_MAX,
        htlc.redeem_address->0.script(),
        fee_amount,
    );
}

/// A refund transaction with a fee moves what the fee leaves back to the sender, locked by height,
/// if the builder varies the lock time only.
pub proof fn law_refund_with_fee_pays_the_rest<S: HtlcScripts, B: SignatureBuilder>(
    htlc: HTLC,
    scripts: &S,
    builder: &B,
    tx: TransactionView,
    fee_amount: u64,
    message: Seq<u8>,
)
    requires
        varies_lock_time_only(builder),
        htlc.refund_with_fee_outcome(scripts, builder, fee_amount, Ok((tx, message))),
    ensures
        moves(
            tx,
            htlc.htlc_funded_utxo->0,
            relative_height(htlc.refund_config->0.refund_lock),
            htlc.refund_config->0.refund_address.script(),
            fee_amount,
        ),
{
    lemma_signed_moves(
        tx,
        tx.lock_time,
        tx.input[0].witness,
        htlc.htlc_funded_utxo->0,
        relative_height(htlc.refund_config->0.refund_lock),
        htlc.refund_config->0.refund_address.script(),
        fee_amount,
    );
}

/// A fee added to a redeem or a refund transaction is the whole fee: what both spent outputs are
/// worth, less what is paid out. The builder varies the lock time only.
pub proof fn law_added_fee_is_the_whole_fee<S: HtlcScripts, B: SignatureBuilder>(
    htlc: HTLC,
    scripts: &S,
    builder: &B,
    tx: TransactionView,
    fee_outpoint: OutPoint,
    fee_utxo_value: u64,
    fee_sats: u64,
    fee_refund_script: Seq<u8>,
)
    requires
        varies_lock_time_only(builder),
        htlc.redeem_outcome(scripts, builder, Ok(tx)) || htlc.refund_outcome(
            scripts,
            builder,
            Ok(tx),
        ),
        fee_sats < fee_utxo_value,
    ensures
        htlc.htlc_funded_utxo->0.amount + fee_utxo_value - tx.extended(
            unsigned_input(fee_outpoint, SEQUENCE_MAX),
            TxOutView {
                value: (fee_utxo_value - fee_sats) as u64,
                script_pubkey: fee_refund_script,
            },
        ).output_value() == fee_sats,
{
    if htlc.redeem_outcome(scripts, builder, Ok(tx)) {
        law_redeem_pays_the_whole_amount(htlc, scripts, builder, tx);
    } else {
        law_refund_pays_the_whole_amount(htlc, scripts, builder, tx);
    }
    law_added_fee_keeps_what_was_there(
        tx,
        unsigned_input(fee_outpoint, SEQUENCE_MAX),
        TxOutView { value: (fee_utxo_value - fee_sats) as u64, script_pubkey: fee_refund_script },
    );
}

/// Whether a stack ends with a script and the control block that opens it in the tree of two
/// leaves.
pub open spec fn opens_leaf(
    items: Seq<Seq<u8>>,
    redeem: Seq<u8>,
    refund: Seq<u8>,
    script: Seq<u8>,
) -> bool {
    &&& items.len() >= 2
    &&& items[items.len() - 2] == script
    &&& two_leaf_tree(redeem, refund).control_block(script) == Some(items.last())
}

/// A redeem transaction opens the receiver's leaf and reveals the preimage below the script.
pub proof fn law_redeem_reveals_the_preimage<S: HtlcScripts, B: SignatureBuilder>(
    htlc: HTLC,
    scripts: &S,
    builder: &B,
    tx: TransactionView,
)
    requires
        htlc.redeem_usable(scripts, builder),
        htlc.redeem_outcome(scripts, builder, Ok(tx)),
    ensures
        tx.input.len() > 0,
        tx.input[0].witness.len() >= 19,
        tx.input[0].witness[tx.input[0].witness.len() - 3] == hex_bytes(
            htlc.redeem_config->0.preimage->0@,
        ),
        exists|redeem: Vec<u8>, refund: Vec<u8>| #[trigger]
            htlc.leaves(scripts, redeem, refund) && opens_leaf(
                tx.input[0].witness,
                redeem@,
                refund@,
                redeem@,
            ),
{
}

/// A refund transaction opens the sender's leaf. Nothing lies between the signature and the
/// script.
pub proof fn law_refund_opens_the_senders_leaf<S: HtlcScripts, B: SignatureBuilder>(
    htlc: HTLC,
    scripts: &S,
    builder: &B,
    tx: TransactionView,
)
    requires
        htlc.refund_usable(scripts, builder),
        htlc.refund_outcome(scripts, builder, Ok(tx)),
    ensures
        tx.input.len() > 0,
        tx.input[0].witness.len() >= 18,
        tx.input[0].witness[tx.input[0].witness.len() - 3].len() == 1,
        exists|redeem: Vec<u8>, refund: Vec<u8>| #[trigger]
            htlc.leaves(scripts, redeem, refund) && opens_leaf(
                tx.input[0].witness,
                redeem@,
                refund@,
                refund@,
            ),
{
}

/// A redeem transaction with a fee opens the receiver's leaf, reveals the preimage below the
/// script, shows the value of its first output as the ninth item, and has the message that its
/// signature signs.
pub proof fn law_redeem_with_fee_reveals_the_preimage<S: HtlcScripts, B: SignatureBuilder>(
    htlc: HTLC,
    scripts: &S,
    builder: &B,
    fee_amount: u64,
    tx: TransactionView,
    message: Seq<u8>,
)
    requires
        htlc.redeem_with_fee_usable(scripts, builder, fee_amount),
        htlc.redeem_with_fee_outcome(scripts, builder, fee_amount, Ok((tx, message))),
    ensures
        tx.input.len() == 1,
        tx.output.len() > 0,
        tx.input[0].witness.len() >= 15,
        tx.input[0].witness[8] == vstd::bytes::spec_u64_to_le_bytes(tx.output[0].value),
        tx.input[0].witness[tx.input[0].witness.len() - 3] == hex_bytes(
            htlc.redeem_config->0.preimage->0@,
        ),
        exists|redeem: Vec<u8>, refund: Vec<u8>| #[trigger]
            htlc.leaves_with_fee(scripts, redeem, refund) && opens_leaf(
                tx.input[0].witness,
                redeem@,
                refund@,
                redeem@,
            ) && message == signed_message(
                tx,
                contract_output(
                    htlc.htlc_funded_utxo->0,
                    two_leaf_tree(redeem@, refund@).output_key(),
                ),
                redeem@,
            ),
{
    let (redeem, refund) = choose|redeem: Vec<u8>, refund: Vec<u8>| #[trigger]
        htlc.leaves_with_fee(scripts, redeem, refund) && whole_outcome(
            builder,
            htlc.plan(
                htlc.redeem_transaction(fee_amount),
                two_leaf_tree(redeem@, refund@).output_key(),
                redeem@,
            ),
            two_leaf_tree(redeem@, refund@),
            redeem@,
            htlc.redeem_unlock(),
            Ok((tx, message)),
        );
    let tree = two_leaf_tree(redeem@, refund@);
    let plan = htlc.plan(htlc.redeem_transaction(fee_amount), tree.output_key(), redeem@);
    lemma_message_of_signed(builder, plan, tree, redeem@, htlc.redeem_unlock(), tx, message);
}

/// A refund transaction with a fee opens the sender's leaf, shows the value of its first output as
/// the ninth item, has nothing between the signature and the script, and has the message that its
/// signature signs. The output that the message names as spent shows the key of the tree that the
/// leaf belongs to.
pub proof fn law_refund_with_fee_opens_the_senders_leaf<S: HtlcScripts, B: SignatureBuilder>(
    htlc: HTLC,
    scripts: &S,
    builder: &B,
    fee_amount: u64,
    tx: TransactionView,
    message: Seq<u8>,
)
    requires
        htlc.refund_with_fee_usable(scripts, builder, fee_amount),
        htlc.refund_with_fee_outcome(scripts, builder, fee_amount, Ok((tx, message))),
    ensures
        tx.input.len() == 1,
        tx.output.len() > 0,
        tx.input[0].witness.len() >= 14,
        tx.input[0].witness[8] == vstd::bytes::spec_u64_to_le_bytes(tx.output[0].value),
        tx.input[0].witness[tx.input[0].witness.len() - 3].len() == 1,
        exists|redeem: Vec<u8>, refund: Vec<u8>| #[trigger]
            htlc.leaves_with_fee(scripts, redeem, refund) && opens_leaf(
                tx.input[0].witness,
                redeem@,
                refund@,
                refund@,
            ) && message == signed_message(
                tx,
                contract_output(
                    htlc.htlc_funded_utxo->0,
                    two_leaf_tree(redeem@, refund@).output_key(),
                ),
                refund@,
            ),
{
    let (redeem, refund) = choose|redeem: Vec<u8>, refund: Vec<u8>| #[trigger]
        htlc.leaves_with_fee(scripts, redeem, refund) && whole_outcome(
            builder,
            htlc.plan(
                htlc.refund_transaction(fee_amount),
                two_leaf_tree(redeem@, refund@).output_key(),
                refund@,
            ),
            two_leaf_tree(redeem@, refund@),
            refund@,
            Unlock::Timeout,
            Ok((tx, message)),
        );
    let tree = two_leaf_tree(redeem@, refund@);
    let plan = htlc.plan(htlc.refund_transaction(fee_amount), tree.output_key(), refund@);
    lemma_message_of_signed(builder, plan, tree, refund@, Unlock::Timeout, tx, message);
}

/// The message that a signature on the whole of a transaction with one input signs.
pub open spec fn signed_message(tx: TransactionView, spent: TxOutView, script: Seq<u8>) -> Seq<
    u8,
> {
    script_spend_digest(
        signing_data(
            tx,
            0,
            seq![spent],
            script_leaf_hash(script),
            TapSighashType::Default.byte(),
        ),
    )
}

/// The message of a ground transaction is the message of the transaction with its witness.
proof fn lemma_message_of_signed<B: SignatureBuilder>(
    builder: &B,
    plan: SpendPlanView,
    tree: TapTree,
    script: Seq<u8>,
    unlock: Unlock,
    tx: TransactionView,
    message: Seq<u8>,
)
    requires
        plan.prevouts.len() == 1,
        plan.leaf_hash == script_leaf_hash(script),
        usable_for_whole(builder, plan, script, unlock),
        whole_outcome(builder, plan, tree, script, unlock, Ok((tx, message))),
    ensures
        message == signed_message(tx, plan.prevouts[0], script),
{
    let (p, g) = choose|p: SpendPlan, g: Result<ContractComponents, String>|
        p@ == plan && #[trigger] ground(builder, p, g) && whole_after_grinding(
            builder,
            p,
            g,
            tree,
            script,
            unlock,
            Ok((tx, message)),
        );
    let found = g->Ok_0;
    assert(found.transaction.input@.len() == 1);
    assert(plan.prevouts =~= seq![plan.prevouts[0]]);
    law_witness_is_not_signed(
        found.transaction@,
        tx.input[0].witness,
        0,
        plan.prevouts,
        plan.leaf_hash,
        TapSighashType::Default,
    );
}

} // verus!
