//! What the outside sees of a spend: what the script writer and the builder are asked, and what
//! comes out for every answer.

use vstd::prelude::*;

use crate::contract::HTLC;
use crate::error::HtlcError;
use crate::fields::{lemma_plans, lemma_shows, lemma_shows_value, lemma_signed};
use crate::hexadecimal::hex_bytes;
use crate::scripts::HtlcScripts;
use crate::sighash::{compute_taproot_sighash, TapSighashType};
use crate::signature_building::{ContractComponents, GrindField, SignatureBuilder};
use crate::spending::{fee_spend_view, ground, ground_request, relative_height};
use crate::spending::{single_after_grinding, single_outcome, transaction_view};
use crate::spending::{whole_after_grinding, whole_message, whole_outcome, with_witness};
use crate::spending::{FeeSpend, SpendPlan, SpendPlanView, Unlock};
use crate::taproot::{nums_key_bytes, script_leaf_hash, two_leaf_output, two_leaf_tree, TapTree};
use crate::taproot::TaprootSpendInfo;
use crate::transaction::{outputs_view, Transaction, TransactionView, TxOut, SEQUENCE_MAX};
use crate::witness::witness_items;
use crate::witness_building::{after_parts, after_signature, all_parts, byte_strings};
use crate::witness_building::{parts_with_value, witness_outcome, witness_request, witness_stack};
use crate::witness_building::witness_view;

verus! {

/// A plan, and what the builder answered when it was asked to grind it, to take its message apart
/// and to make the signature.
struct Answers {
    plan: SpendPlan,
    ground: Result<ContractComponents, String>,
    parts: Result<Vec<Vec<u8>>, String>,
    signature: Result<[u8; 64], String>,
}

/// The answers from which signing a plan for one input and one output came out as it did.
proof fn lemma_single_answers<B: SignatureBuilder>(
    builder: &B,
    plan: SpendPlanView,
    tree: TapTree,
    script: Seq<u8>,
    unlock: Unlock,
    r: Result<TransactionView, HtlcError>,
) -> (t: Answers)
    requires
        single_outcome(builder, plan, tree, script, unlock, r),
    ensures
        t.plan@ == plan,
        ground(builder, t.plan, t.ground),
        t.ground matches Err(words) ==> r == Err::<TransactionView, HtlcError>(
            HtlcError::SignatureBuilding(words),
        ),
        t.ground is Ok && !unlock.is_known() ==> r == Err::<TransactionView, HtlcError>(
            HtlcError::PreimageRequired,
        ),
        t.ground is Ok && unlock.is_known() ==> {
            let request = ground_request(t.plan, t.ground->Ok_0, script, unlock.bytes());
            &&& request.components(builder, TapSighashType::SinglePlusAnyoneCanPay, t.parts)
            &&& t.parts matches Err(words) ==> r == Err::<TransactionView, HtlcError>(
                HtlcError::SignatureBuilding(words),
            )
            &&& t.parts is Ok ==> request.signature(builder, t.signature)
            &&& t.parts is Ok ==> (t.signature matches Err(words) ==> r == Err::<
                TransactionView,
                HtlcError,
            >(HtlcError::SignatureBuilding(words)))
            &&& t.parts is Ok && t.signature is Ok ==> r == Ok::<
                TransactionView,
                HtlcError,
            >(
                with_witness(
                    t.ground->Ok_0.transaction@,
                    witness_stack(
                        byte_strings(t.parts->Ok_0@),
                        t.signature->Ok_0@,
                        unlock.bytes(),
                        script,
                        tree.control_block(script)->0,
                    ),
                ),
            )
        },
{
    let (p, g) = choose|p: SpendPlan, g: Result<ContractComponents, String>|
        p@ == plan && #[trigger] ground(builder, p, g) && single_after_grinding(
            builder,
            p,
            g,
            tree,
            script,
            unlock,
            r,
        );
    let request = ground_request(p, g->Ok_0, script, unlock.bytes());
    let block = tree.control_block(script)->0;
    let shown = all_parts();
    let kind = TapSighashType::SinglePlusAnyoneCanPay;
    let w = choose|w: Result<Seq<Seq<u8>>, HtlcError>| #[trigger]
        witness_outcome(builder, request, kind, shown, block, w) && match w {
            Err(e) => r == Err::<TransactionView, HtlcError>(e),
            Ok(items) => r == Ok::<TransactionView, HtlcError>(
                with_witness(g->Ok_0.transaction@, items),
            ),
        };
    let c = choose|c: Result<Vec<Vec<u8>>, String>| #[trigger]
        request.components(builder, kind, c) && after_parts(builder, request, c, shown, block, w);
    let s = choose|s: Result<[u8; 64], String>| #[trigger]
        request.signature(builder, s) && after_signature(request, c->Ok_0, s, shown, block, w);
    Answers { plan: p, ground: g, parts: c, signature: s }
}

/// The answers from which signing a plan as a whole came out as it did.
proof fn lemma_whole_answers<B: SignatureBuilder>(
    builder: &B,
    plan: SpendPlanView,
    tree: TapTree,
    script: Seq<u8>,
    unlock: Unlock,
    r: Result<(TransactionView, Seq<u8>), HtlcError>,
) -> (t: Answers)
    requires
        whole_outcome(builder, plan, tree, script, unlock, r),
    ensures
        t.plan@ == plan,
        ground(builder, t.plan, t.ground),
        t.ground matches Err(words) ==> r == Err::<(TransactionView, Seq<u8>), HtlcError>(
            HtlcError::SignatureBuilding(words),
        ),
        t.ground is Ok && !unlock.is_known() ==> r == Err::<(TransactionView, Seq<u8>), HtlcError>(
            HtlcError::PreimageRequired,
        ),
        t.ground is Ok && unlock.is_known() ==> {
            let request = ground_request(t.plan, t.ground->Ok_0, script, unlock.bytes());
            &&& request.components(builder, TapSighashType::Default, t.parts)
            &&& t.parts matches Err(words) ==> r == Err::<(TransactionView, Seq<u8>), HtlcError>(
                HtlcError::SignatureBuilding(words),
            )
            &&& t.parts is Ok ==> request.signature(builder, t.signature)
            &&& t.parts is Ok ==> (t.signature matches Err(words) ==> r == Err::<
                (TransactionView, Seq<u8>),
                HtlcError,
            >(HtlcError::SignatureBuilding(words)))
            &&& t.parts is Ok && t.signature is Ok ==> r == Ok::<
                (TransactionView, Seq<u8>),
                HtlcError,
            >(
                (
                    with_witness(
                        t.ground->Ok_0.transaction@,
                        witness_stack(
                            parts_with_value(t.ground->Ok_0.transaction@.output[0].value)(
                                byte_strings(t.parts->Ok_0@),
                            ),
                            t.signature->Ok_0@,
                            unlock.bytes(),
                            script,
                            tree.control_block(script)->0,
                        ),
                    ),
                    whole_message(t.ground->Ok_0.transaction@, plan),
                ),
            )
        },
{
    let (p, g) = choose|p: SpendPlan, g: Result<ContractComponents, String>|
        p@ == plan && #[trigger] ground(builder, p, g) && whole_after_grinding(
            builder,
            p,
            g,
            tree,
            script,
            unlock,
            r,
        );
    let request = ground_request(p, g->Ok_0, script, unlock.bytes());
    let block = tree.control_block(script)->0;
    let shown = parts_with_value(g->Ok_0.transaction@.output[0].value);
    let kind = TapSighashType::Default;
    let w = choose|w: Result<Seq<Seq<u8>>, HtlcError>| #[trigger]
        witness_outcome(builder, request, kind, shown, block, w) && match w {
            Err(e) => r == Err::<(TransactionView, Seq<u8>), HtlcError>(e),
            Ok(items) => r == Ok::<(TransactionView, Seq<u8>), HtlcError>(
                (
                    with_witness(g->Ok_0.transaction@, items),
                    whole_message(g->Ok_0.transaction@, plan),
                ),
            ),
        };
    let c = choose|c: Result<Vec<Vec<u8>>, String>| #[trigger]
        request.components(builder, kind, c) && after_parts(builder, request, c, shown, block, w);
    let s = choose|s: Result<[u8; 64], String>| #[trigger]
        request.signature(builder, s) && after_signature(request, c->Ok_0, s, shown, block, w);
    Answers { plan: p, ground: g, parts: c, signature: s }
}

/// Redeeming, as the outside sees it. It is refused for missing fields exactly where the funding,
/// the receiver's address or the receiver's terms are missing. Otherwise the leaves are written for
/// the terms, and the builder is asked to grind the transaction that moves the whole amount to the
/// receiver without a lock, over the contract's output and the hash of the receiver's leaf. The
/// first refusal is handed on, a missing preimage after grinding. In the end the ground transaction
/// comes out with one witness on its first input: the parts of the message that the builder
/// answers for the same output and leaf, in their order, the signature, the preimage, the leaf and
/// its control block.
pub proof fn law_redeem_transcript<S: HtlcScripts, B: SignatureBuilder>(
    htlc: &HTLC,
    scripts: &S,
    builder: &B,
    r: Result<Transaction, HtlcError>,
)
    requires
        call_ensures(
            HTLC::create_redeem_tx::<S, B>,
            (htlc, scripts, builder),
            r,
        ),
    ensures
        r == Err::<Transaction, HtlcError>(HtlcError::MissingFields) <==> (
            htlc.htlc_funded_utxo is None || htlc.redeem_address is None
            || htlc.redeem_config is None),
        !(htlc.htlc_funded_utxo is None || htlc.redeem_address is None
            || htlc.redeem_config is None) ==> exists|
            redeem: Vec<u8>,
            refund: Vec<u8>,
            planned: Transaction,
            prevouts: Vec<TxOut>,
            leaf_hash: [u8; 32],
            g: Result<ContractComponents, String>,
        | {
            let funded = htlc.htlc_funded_utxo->0;
            let (key, parity) = two_leaf_output(nums_key_bytes(), redeem@, refund@);
            &&& #[trigger] call_ensures(
                S::htlc_redeem_script,
                (scripts, &htlc.redeem_address->0, &htlc.redeem_config->0.payment_hash),
                redeem,
            )
            &&& #[trigger] call_ensures(
                S::htlc_refund_script,
                (
                    scripts,
                    &htlc.refund_config->0.refund_address,
                    htlc.refund_config->0.refund_lock,
                ),
                refund,
            )
            &&& #[trigger] call_ensures(
                B::grind_transaction,
                (builder, planned, GrindField::LockTime, &prevouts, &leaf_hash),
                g,
            )
            &&& planned.version == 2
            &&& planned.lock_time == 0
            &&& planned.input@.len() == 1
            &&& planned.input@[0].previous_output == funded.htlc_outpoint
            &&& planned.input@[0].script_sig@.len() == 0
            &&& planned.input@[0].sequence == 0xffff_ffff
            &&& witness_items(planned.input@[0].witness).len() == 0
            &&& planned.output@.len() == 1
            &&& planned.output@[0].value == funded.amount
            &&& planned.output@[0].script_pubkey@ == htlc.redeem_address->0.script()
            &&& prevouts@.len() == 1
            &&& prevouts@[0].value == funded.amount
            &&& prevouts@[0].script_pubkey@ == seq![0x51u8, key.len() as u8] + key
            &&& leaf_hash@ == script_leaf_hash(redeem@)
            &&& g matches Err(words) ==> r == Err::<Transaction, HtlcError>(
                HtlcError::SignatureBuilding(words),
            )
            &&& g is Ok && htlc.redeem_config->0.preimage is None ==> r == Err::<
                Transaction,
                HtlcError,
            >(HtlcError::PreimageRequired)
            &&& g is Ok && htlc.redeem_config->0.preimage is Some ==> exists|
                c: Result<Vec<Vec<u8>>, String>,
            | {
                    &&& #[trigger] call_ensures(
                        B::get_sigmsg_components,
                        (
                            builder,
                            &g->Ok_0.transaction,
                            0usize,
                            &prevouts,
                            &leaf_hash,
                            TapSighashType::SinglePlusAnyoneCanPay,
                        ),
                        c,
                    )
                    &&& c matches Err(words) ==> r == Err::<Transaction, HtlcError>(
                        HtlcError::SignatureBuilding(words),
                    )
                    &&& c is Ok ==> exists|s: Result<[u8; 64], String>| {
                        &&& #[trigger] call_ensures(
                            B::compute_signature_from_components,
                            (builder, &g->Ok_0.signature_components),
                            s,
                        )
                        &&& s matches Err(words) ==> r == Err::<Transaction, HtlcError>(
                            HtlcError::SignatureBuilding(words),
                        )
                        &&& s is Ok ==> r is Ok
                        &&& s is Ok && g->Ok_0.transaction.input@.len() > 0 ==> {
                            let tx = r->Ok_0;
                            let found = g->Ok_0.transaction;
                            let items = witness_items(tx.input@[0].witness);
                            let n = c->Ok_0@.len() as int;
                            &&& tx.version == found.version
                            &&& tx.lock_time == found.lock_time
                            &&& tx.input@.len() == found.input@.len()
                            &&& tx.output@.len() == found.output@.len()
                            &&& tx.input@[0].previous_output == found.input@[0].previous_output
                            &&& tx.input@[0].script_sig@ == found.input@[0].script_sig@
                            &&& tx.input@[0].sequence == found.input@[0].sequence
                            &&& forall|i: int|
                                #![trigger g->Ok_0.transaction.input@[i]]
                                1 <= i < found.input@.len() ==> {
                                    &&& tx.input@[i].previous_output == found.input@[i].previous_output
                                    &&& tx.input@[i].script_sig@ == found.input@[i].script_sig@
                                    &&& tx.input@[i].sequence == found.input@[i].sequence
                                    &&& witness_items(tx.input@[i].witness) == witness_items(
                                        found.input@[i].witness,
                                    )
                                }
                            &&& forall|i: int|
                                #![trigger g->Ok_0.transaction.output@[i]]
                                0 <= i < found.output@.len() ==> {
                                    &&& tx.output@[i].value == found.output@[i].value
                                    &&& tx.output@[i].script_pubkey@ == found.output@[i].script_pubkey@
                                }
                            &&& items.len() == n + 6
                            &&& forall|i: int|
                                0 <= i < n ==> items[i] == (#[trigger] c->Ok_0@[i])@
                            &&& items[n].len() == 63
                            &&& forall|i: int| 0 <= i < 63 ==> items[n][i] == #[trigger] s->Ok_0@[i]
                            &&& items[n + 1] == seq![s->Ok_0@[63]]
                            &&& s->Ok_0@[63] < 255 ==> items[n + 2] == seq![(s->Ok_0@[63] + 1) as u8]
                            &&& items[n + 3] == hex_bytes(htlc.redeem_config->0.preimage->0@)
                            &&& items[n + 4] == redeem@
                            &&& items[n + 5] == seq![(0xc0 + parity) as u8] + nums_key_bytes()
                                + script_leaf_hash(refund@)
                        }
                    }
                }
        },
{
    if htlc.can_redeem() {
        let (redeem, refund) = choose|redeem: Vec<u8>, refund: Vec<u8>| #[trigger]
            htlc.leaves(scripts, redeem, refund) && single_outcome(
                builder,
                htlc.plan(
                    htlc.redeem_transaction(0),
                    two_leaf_tree(redeem@, refund@).output_key(),
                    redeem@,
                ),
                two_leaf_tree(redeem@, refund@),
                redeem@,
                htlc.redeem_unlock(),
                transaction_view(r),
            );
        let tree = two_leaf_tree(redeem@, refund@);
        let plan = htlc.plan(htlc.redeem_transaction(0), tree.output_key(), redeem@);
        let answers = lemma_single_answers(
            builder,
            plan,
            tree,
            redeem@,
            htlc.redeem_unlock(),
            transaction_view(r),
        );
        let Answers { plan: p, ground: g, parts: c, signature: s } = answers;
        let prevouts = p.prevouts;
        let leaf_hash = p.leaf_hash;
        lemma_plans(
            p,
            htlc.htlc_funded_utxo->0,
            tree.output_key(),
            script_leaf_hash(redeem@),
            SEQUENCE_MAX,
            htlc.redeem_address->0.script(),
            0,
        );
        let block = tree.control_block(redeem@)->0;
        if g is Ok && htlc.redeem_unlock().is_known() && c is Ok && s is Ok {
            if g->Ok_0.transaction.input@.len() > 0 {
                lemma_signed(
                    r->Ok_0,
                    g->Ok_0.transaction,
                    witness_stack(
                        byte_strings(c->Ok_0@),
                        s->Ok_0@,
                        htlc.redeem_unlock().bytes(),
                        redeem@,
                        block,
                    ),
                );
                lemma_shows(c->Ok_0@, s->Ok_0, htlc.redeem_unlock().bytes(), redeem@, block);
            }
        }
        assert(call_ensures(
            B::grind_transaction,
            (builder, p.transaction, GrindField::LockTime, &prevouts, &leaf_hash),
            g,
        ));
        if g is Ok && htlc.redeem_unlock().is_known() {
            assert(call_ensures(
                B::get_sigmsg_components,
                (
                    builder,
                    &g->Ok_0.transaction,
                    0usize,
                    &prevouts,
                    &leaf_hash,
                    TapSighashType::SinglePlusAnyoneCanPay,
                ),
                c,
            ));
            if c is Ok {
                assert(call_ensures(
                    B::compute_signature_from_components,
                    (builder, &g->Ok_0.signature_components),
                    s,
                ));
            }
        }
    }
}

/// Refunding, as the outside sees it. It is refused for missing fields exactly where the funding or
/// the sender's terms are missing. Otherwise the leaves are written for the terms, and the builder
/// is asked to grind the transaction that moves the whole amount back to the sender, locked for the
/// agreed blocks, over the contract's output and the hash of the sender's leaf. The first refusal
/// is handed on. In the end the ground transaction comes out with one witness on its first input:
/// the parts of the message that the builder answers for the same output and leaf, in their order,
/// the signature, the leaf and its control block.
pub proof fn law_refund_transcript<S: HtlcScripts, B: SignatureBuilder>(
    htlc: &HTLC,
    scripts: &S,
    builder: &B,
    r: Result<Transaction, HtlcError>,
)
    requires
        call_ensures(
            HTLC::create_refund_tx::<S, B>,
            (htlc, scripts, builder),
            r,
        ),
    ensures
        r == Err::<Transaction, HtlcError>(HtlcError::MissingFields) <==> (
            htlc.htlc_funded_utxo is None || htlc.refund_config is None),
        !(htlc.htlc_funded_utxo is None
            || htlc.refund_config is None) ==> exists|
            redeem: Vec<u8>,
            refund: Vec<u8>,
            planned: Transaction,
            prevouts: Vec<TxOut>,
            leaf_hash: [u8; 32],
            g: Result<ContractComponents, String>,
        | {
            let funded = htlc.htlc_funded_utxo->0;
            let (key, parity) = two_leaf_output(nums_key_bytes(), redeem@, refund@);
            &&& #[trigger] call_ensures(
                S::htlc_redeem_script,
                (scripts, &htlc.redeem_address->0, &htlc.redeem_config->0.payment_hash),
                redeem,
            )
            &&& #[trigger] call_ensures(
                S::htlc_refund_script,
                (
                    scripts,
                    &htlc.refund_config->0.refund_address,
                    htlc.refund_config->0.refund_lock,
                ),
                refund,
            )
            &&& #[trigger] call_ensures(
                B::grind_transaction,
                (builder, planned, GrindField::LockTime, &prevouts, &leaf_hash),
                g,
            )
            &&& planned.version == 2
            &&& planned.lock_time == 0
            &&& planned.input@.len() == 1
            &&& planned.input@[0].previous_output == funded.htlc_outpoint
            &&& planned.input@[0].script_sig@.len() == 0
            &&& planned.input@[0].sequence as int == htlc.refund_config->0.refund_lock as int
                % 0x1_0000
            &&& witness_items(planned.input@[0].witness).len() == 0
            &&& planned.output@.len() == 1
            &&& planned.output@[0].value == funded.amount
            &&& planned.output@[0].script_pubkey@ == htlc.refund_config->0.refund_address.script()
            &&& prevouts@.len() == 1
            &&& prevouts@[0].value == funded.amount
            &&& prevouts@[0].script_pubkey@ == seq![0x51u8, key.len() as u8] + key
            &&& leaf_hash@ == script_leaf_hash(refund@)
            &&& g matches Err(words) ==> r == Err::<Transaction, HtlcError>(
                HtlcError::SignatureBuilding(words),
            )
            &&& g is Ok ==> exists|
                c: Result<Vec<Vec<u8>>, String>,
            | {
                    &&& #[trigger] call_ensures(
                        B::get_sigmsg_components,
                        (
                            builder,
                            &g->Ok_0.transaction,
                            0usize,
                            &prevouts,
                            &leaf_hash,
                            TapSighashType::SinglePlusAnyoneCanPay,
                        ),
                        c,
                    )
                    &&& c matches Err(words) ==> r == Err::<Transaction, HtlcError>(
                        HtlcError::SignatureBuilding(words),
                    )
                    &&& c is Ok ==> exists|s: Result<[u8; 64], String>| {
                        &&& #[trigger] call_ensures(
                            B::compute_signature_from_components,
                            (builder, &g->Ok_0.signature_components),
                            s,
                        )
                        &&& s matches Err(words) ==> r == Err::<Transaction, HtlcError>(
                            HtlcError::SignatureBuilding(words),
                        )
                        &&& s is Ok ==> r is Ok
                        &&& s is Ok && g->Ok_0.transaction.input@.len() > 0 ==> {
                            let tx = r->Ok_0;
                            let found = g->Ok_0.transaction;
                            let items = witness_items(tx.input@[0].witness);
                            let n = c->Ok_0@.len() as int;
                            &&& tx.version == found.version
                            &&& tx.lock_time == found.lock_time
                            &&& tx.input@.len() == found.input@.len()
                            &&& tx.output@.len() == found.output@.len()
                            &&& tx.input@[0].previous_output == found.input@[0].previous_output
                            &&& tx.input@[0].script_sig@ == found.input@[0].script_sig@
                            &&& tx.input@[0].sequence == found.input@[0].sequence
                            &&& forall|i: int|
                                #![trigger g->Ok_0.transaction.input@[i]]
                                1 <= i < found.input@.len() ==> {
                                    &&& tx.input@[i].previous_output == found.input@[i].previous_output
                                    &&& tx.input@[i].script_sig@ == found.input@[i].script_sig@
                                    &&& tx.input@[i].sequence == found.input@[i].sequence
                                    &&& witness_items(tx.input@[i].witness) == witness_items(
                                        found.input@[i].witness,
                                    )
                                }
                            &&& forall|i: int|
                                #![trigger g->Ok_0.transaction.output@[i]]
                                0 <= i < found.output@.len() ==> {
                                    &&& tx.output@[i].value == found.output@[i].value
                                    &&& tx.output@[i].script_pubkey@ == found.output@[i].script_pubkey@
                                }
                            &&& items.len() == n + 5
                            &&& forall|i: int|
                                0 <= i < n ==> items[i] == (#[trigger] c->Ok_0@[i])@
                            &&& items[n].len() == 63
                            &&& forall|i: int| 0 <= i < 63 ==> items[n][i] == #[trigger] s->Ok_0@[i]
                            &&& items[n + 1] == seq![s->Ok_0@[63]]
                            &&& s->Ok_0@[63] < 255 ==> items[n + 2] == seq![(s->Ok_0@[63] + 1) as u8]
                            &&& items[n + 3] == refund@
                            &&& items[n + 4] == seq![(0xc0 + parity) as u8] + nums_key_bytes()
                                + script_leaf_hash(redeem@)
                        }
                    }
                }
        },
{
    if htlc.can_refund() {
        let (redeem, refund) = choose|redeem: Vec<u8>, refund: Vec<u8>| #[trigger]
            htlc.leaves(scripts, redeem, refund) && single_outcome(
                builder,
                htlc.plan(
                    htlc.refund_transaction(0),
                    two_leaf_tree(redeem@, refund@).output_key(),
                    refund@,
                ),
                two_leaf_tree(redeem@, refund@),
                refund@,
                Unlock::Timeout,
                transaction_view(r),
            );
        let tree = two_leaf_tree(redeem@, refund@);
        let plan = htlc.plan(htlc.refund_transaction(0), tree.output_key(), refund@);
        let answers = lemma_single_answers(
            builder,
            plan,
            tree,
            refund@,
            Unlock::Timeout,
            transaction_view(r),
        );
        let Answers { plan: p, ground: g, parts: c, signature: s } = answers;
        let prevouts = p.prevouts;
        let leaf_hash = p.leaf_hash;
        lemma_plans(
            p,
            htlc.htlc_funded_utxo->0,
            tree.output_key(),
            script_leaf_hash(refund@),
            relative_height(htlc.refund_config->0.refund_lock),
            htlc.refund_config->0.refund_address.script(),
            0,
        );
        let block = tree.control_block(refund@)->0;
        if g is Ok && Unlock::Timeout.is_known() && c is Ok && s is Ok {
            if g->Ok_0.transaction.input@.len() > 0 {
                lemma_signed(
                    r->Ok_0,
                    g->Ok_0.transaction,
                    witness_stack(
                        byte_strings(c->Ok_0@),
                        s->Ok_0@,
                        None,
                        refund@,
                        block,
                    ),
                );
                lemma_shows(c->Ok_0@, s->Ok_0, None, refund@, block);
            }
        }
        assert(call_ensures(
            B::grind_transaction,
            (builder, p.transaction, GrindField::LockTime, &prevouts, &leaf_hash),
            g,
        ));
        if g is Ok && Unlock::Timeout.is_known() {
            assert(call_ensures(
                B::get_sigmsg_components,
                (
                    builder,
                    &g->Ok_0.transaction,
                    0usize,
                    &prevouts,
                    &leaf_hash,
                    TapSighashType::SinglePlusAnyoneCanPay,
                ),
                c,
            ));
            if c is Ok {
                assert(call_ensures(
                    B::compute_signature_from_components,
                    (builder, &g->Ok_0.signature_components),
                    s,
                ));
            }
        }
    }
}

/// Redeeming with a fee, as the outside sees it. It is refused for missing fields exactly where the
/// funding, the receiver's address or the receiver's terms are missing. Otherwise the leaves are
/// written for the terms, and the builder is asked to grind the transaction that moves what the fee
/// leaves to the receiver without a lock, over the contract's output and the hash of the receiver's
/// leaf. The first refusal is handed on, a missing preimage after grinding. In the end the ground
/// transaction comes out with one witness on its first input: the parts of the message that the
/// builder answers for the same output and leaf, with the value of the first output as the ninth,
/// the signature, the preimage, the leaf and its control block. The message is that of the ground
/// transaction for the same output and leaf.
pub proof fn law_redeem_with_fee_transcript<S: HtlcScripts, B: SignatureBuilder>(
    htlc: &HTLC,
    scripts: &S,
    builder: &B,
    fee_amount: u64,
    r: Result<FeeSpend, HtlcError>,
)
    requires
        call_ensures(
            HTLC::create_redeem_tx_with_fee::<S, B>,
            (htlc, scripts, builder, fee_amount),
            r,
        ),
    ensures
        r == Err::<FeeSpend, HtlcError>(HtlcError::MissingFields) <==> (
            htlc.htlc_funded_utxo is None || htlc.redeem_address is None
            || htlc.redeem_config is None),
        !(htlc.htlc_funded_utxo is None || htlc.redeem_address is None
            || htlc.redeem_config is None) ==> exists|
            redeem: Vec<u8>,
            refund: Vec<u8>,
            planned: Transaction,
            prevouts: Vec<TxOut>,
            leaf_hash: [u8; 32],
            g: Result<ContractComponents, String>,
        | {
            let funded = htlc.htlc_funded_utxo->0;
            let (key, parity) = two_leaf_output(nums_key_bytes(), redeem@, refund@);
            &&& #[trigger] call_ensures(
                S::htlc_redeem_script_with_fee,
                (scripts, &htlc.redeem_address->0, &htlc.redeem_config->0.payment_hash),
                redeem,
            )
            &&& #[trigger] call_ensures(
                S::htlc_refund_script_with_fee,
                (
                    scripts,
                    &htlc.refund_config->0.refund_address,
                    htlc.refund_config->0.refund_lock,
                ),
                refund,
            )
            &&& #[trigger] call_ensures(
                B::grind_transaction,
                (builder, planned, GrindField::LockTime, &prevouts, &leaf_hash),
                g,
            )
            &&& planned.version == 2
            &&& planned.lock_time == 0
            &&& planned.input@.len() == 1
            &&& planned.input@[0].previous_output == funded.htlc_outpoint
            &&& planned.input@[0].script_sig@.len() == 0
            &&& planned.input@[0].sequence == 0xffff_ffff
            &&& witness_items(planned.input@[0].witness).len() == 0
            &&& planned.output@.len() == 1
            &&& fee_amount <= funded.amount ==> planned.output@[0].value == funded.amount - fee_amount
            &&& planned.output@[0].script_pubkey@ == htlc.redeem_address->0.script()
            &&& prevouts@.len() == 1
            &&& prevouts@[0].value == funded.amount
            &&& prevouts@[0].script_pubkey@ == seq![0x51u8, key.len() as u8] + key
            &&& leaf_hash@ == script_leaf_hash(redeem@)
            &&& g matches Err(words) ==> r == Err::<FeeSpend, HtlcError>(
                HtlcError::SignatureBuilding(words),
            )
            &&& g is Ok && htlc.redeem_config->0.preimage is None ==> r == Err::<
                FeeSpend,
                HtlcError,
            >(HtlcError::PreimageRequired)
            &&& g is Ok && htlc.redeem_config->0.preimage is Some ==> exists|
                c: Result<Vec<Vec<u8>>, String>,
            | {
                    &&& #[trigger] call_ensures(
                        B::get_sigmsg_components,
                        (
                            builder,
                            &g->Ok_0.transaction,
                            0usize,
                            &prevouts,
                            &leaf_hash,
                            TapSighashType::Default,
                        ),
                        c,
                    )
                    &&& c matches Err(words) ==> r == Err::<FeeSpend, HtlcError>(
                        HtlcError::SignatureBuilding(words),
                    )
                    &&& c is Ok ==> exists|s: Result<[u8; 64], String>| {
                        &&& #[trigger] call_ensures(
                            B::compute_signature_from_components,
                            (builder, &g->Ok_0.signature_components),
                            s,
                        )
                        &&& s matches Err(words) ==> r == Err::<FeeSpend, HtlcError>(
                            HtlcError::SignatureBuilding(words),
                        )
                        &&& s is Ok ==> r is Ok
                        &&& s is Ok && g->Ok_0.transaction.input@.len() == 1 ==> forall|
                            message: [u8; 32],
                        | #[trigger]
                            call_ensures(
                                compute_taproot_sighash,
                                (
                                    &g->Ok_0.transaction,
                                    0usize,
                                    &prevouts,
                                    &leaf_hash,
                                    TapSighashType::Default,
                                ),
                                Ok(message),
                            ) ==> r->Ok_0.message@ == message@
                        &&& s is Ok && g->Ok_0.transaction.input@.len() > 0
                            && g->Ok_0.transaction.output@.len() > 0
                            && c->Ok_0@.len() > 8 ==> {
                            let tx = r->Ok_0.transaction;
                            let found = g->Ok_0.transaction;
                            let items = witness_items(tx.input@[0].witness);
                            let n = c->Ok_0@.len() as int;
                            &&& tx.version == found.version
                            &&& tx.lock_time == found.lock_time
                            &&& tx.input@.len() == found.input@.len()
                            &&& tx.output@.len() == found.output@.len()
                            &&& tx.input@[0].previous_output == found.input@[0].previous_output
                            &&& tx.input@[0].script_sig@ == found.input@[0].script_sig@
                            &&& tx.input@[0].sequence == found.input@[0].sequence
                            &&& forall|i: int|
                                #![trigger g->Ok_0.transaction.input@[i]]
                                1 <= i < found.input@.len() ==> {
                                    &&& tx.input@[i].previous_output == found.input@[i].previous_output
                                    &&& tx.input@[i].script_sig@ == found.input@[i].script_sig@
                                    &&& tx.input@[i].sequence == found.input@[i].sequence
                                    &&& witness_items(tx.input@[i].witness) == witness_items(
                                        found.input@[i].witness,
                                    )
                                }
                            &&& forall|i: int|
                                #![trigger g->Ok_0.transaction.output@[i]]
                                0 <= i < found.output@.len() ==> {
                                    &&& tx.output@[i].value == found.output@[i].value
                                    &&& tx.output@[i].script_pubkey@ == found.output@[i].script_pubkey@
                                }
                            &&& items.len() == n + 6
                            &&& forall|i: int|
                                0 <= i < n && i != 8 ==> items[i] == (#[trigger] c->Ok_0@[i])@
                            &&& items[8] == vstd::bytes::spec_u64_to_le_bytes(found.output@[0].value)
                            &&& items[n].len() == 63
                            &&& forall|i: int| 0 <= i < 63 ==> items[n][i] == #[trigger] s->Ok_0@[i]
                            &&& items[n + 1] == seq![s->Ok_0@[63]]
                            &&& s->Ok_0@[63] < 255 ==> items[n + 2] == seq![(s->Ok_0@[63] + 1) as u8]
                            &&& items[n + 3] == hex_bytes(htlc.redeem_config->0.preimage->0@)
                            &&& items[n + 4] == redeem@
                            &&& items[n + 5] == seq![(0xc0 + parity) as u8] + nums_key_bytes()
                                + script_leaf_hash(refund@)
                        }
                    }
                }
        },
{
    if htlc.can_redeem() {
        let (redeem, refund) = choose|redeem: Vec<u8>, refund: Vec<u8>| #[trigger]
            htlc.leaves_with_fee(scripts, redeem, refund) && whole_outcome(
                builder,
                htlc.plan(
                    htlc.redeem_transaction(fee_amount),
                    two_leaf_tree(redeem@, refund@).output_key(),
                    redeem@,
                ),
                two_leaf_tree(redeem@, refund@),
                redeem@,
                htlc.redeem_unlock(),
                fee_spend_view(r),
            );
        let tree = two_leaf_tree(redeem@, refund@);
        let plan = htlc.plan(htlc.redeem_transaction(fee_amount), tree.output_key(), redeem@);
        let answers = lemma_whole_answers(
            builder,
            plan,
            tree,
            redeem@,
            htlc.redeem_unlock(),
            fee_spend_view(r),
        );
        let Answers { plan: p, ground: g, parts: c, signature: s } = answers;
        let prevouts = p.prevouts;
        let leaf_hash = p.leaf_hash;
        lemma_plans(
            p,
            htlc.htlc_funded_utxo->0,
            tree.output_key(),
            script_leaf_hash(redeem@),
            SEQUENCE_MAX,
            htlc.redeem_address->0.script(),
            fee_amount,
        );
        let block = tree.control_block(redeem@)->0;
        if g is Ok && htlc.redeem_unlock().is_known() && c is Ok && s is Ok {
            if g->Ok_0.transaction.input@.len() > 0
                && g->Ok_0.transaction.output@.len() > 0
                && c->Ok_0@.len() > 8 {
                lemma_signed(
                    r->Ok_0.transaction,
                    g->Ok_0.transaction,
                    witness_stack(
                        parts_with_value(g->Ok_0.transaction@.output[0].value)(
                            byte_strings(c->Ok_0@),
                        ),
                        s->Ok_0@,
                        htlc.redeem_unlock().bytes(),
                        redeem@,
                        block,
                    ),
                );
                lemma_shows_value(
                    c->Ok_0@,
                    g->Ok_0.transaction.output@[0].value,
                    s->Ok_0,
                    htlc.redeem_unlock().bytes(),
                    redeem@,
                    block,
                );
                assert(outputs_view(g->Ok_0.transaction.output@)[0]
                    == g->Ok_0.transaction.output@[0]@);
            }
        }
        assert(call_ensures(
            B::grind_transaction,
            (builder, p.transaction, GrindField::LockTime, &prevouts, &leaf_hash),
            g,
        ));
        if g is Ok && htlc.redeem_unlock().is_known() {
            assert(call_ensures(
                B::get_sigmsg_components,
                (
                    builder,
                    &g->Ok_0.transaction,
                    0usize,
                    &prevouts,
                    &leaf_hash,
                    TapSighashType::Default,
                ),
                c,
            ));
            if c is Ok {
                assert(call_ensures(
                    B::compute_signature_from_components,
                    (builder, &g->Ok_0.signature_components),
                    s,
                ));
            }
        }
    }
}

/// Refunding with a fee, as the outside sees it. It is refused for missing fields exactly where the
/// funding or the sender's terms are missing. Otherwise the leaves are written for the terms, and
/// the builder is asked to grind the transaction that moves what the fee leaves back to the sender,
/// locked for the agreed blocks, over the contract's output and the hash of the sender's leaf. The
/// first refusal is handed on. In the end the ground transaction comes out with one witness on its
/// first input: the parts of the message that the builder answers for the same output and leaf,
/// with the value of the first output as the ninth, the signature, the leaf and its control block.
/// The message is that of the ground transaction for the same output and leaf.
pub proof fn law_refund_with_fee_transcript<S: HtlcScripts, B: SignatureBuilder>(
    htlc: &HTLC,
    scripts: &S,
    builder: &B,
    fee_amount: u64,
    r: Result<FeeSpend, HtlcError>,
)
    requires
        call_ensures(
            HTLC::create_refund_tx_with_fee::<S, B>,
            (htlc, scripts, builder, fee_amount),
            r,
        ),
    ensures
        r == Err::<FeeSpend, HtlcError>(HtlcError::MissingFields) <==> (
            htlc.htlc_funded_utxo is None || htlc.refund_config is None),
        !(htlc.htlc_funded_utxo is None
            || htlc.refund_config is None) ==> exists|
            redeem: Vec<u8>,
            refund: Vec<u8>,
            planned: Transaction,
            prevouts: Vec<TxOut>,
            leaf_hash: [u8; 32],
            g: Result<ContractComponents, String>,
        | {
            let funded = htlc.htlc_funded_utxo->0;
            let (key, parity) = two_leaf_output(nums_key_bytes(), redeem@, refund@);
            &&& #[trigger] call_ensures(
                S::htlc_redeem_script_with_fee,
                (scripts, &htlc.redeem_address->0, &htlc.redeem_config->0.payment_hash),
                redeem,
            )
            &&& #[trigger] call_ensures(
                S::htlc_refund_script_with_fee,
                (
                    scripts,
                    &htlc.refund_config->0.refund_address,
                    htlc.refund_config->0.refund_lock,
                ),
                refund,
            )
            &&& #[trigger] call_ensures(
                B::grind_transaction,
                (builder, planned, GrindField::LockTime, &prevouts, &leaf_hash),
                g,
            )
            &&& planned.version == 2
            &&& planned.lock_time == 0
            &&& planned.input@.len() == 1
            &&& planned.input@[0].previous_output == funded.htlc_outpoint
            &&& planned.input@[0].script_sig@.len() == 0
            &&& planned.input@[0].sequence as int == htlc.refund_config->0.refund_lock as int
                % 0x1_0000
            &&& witness_items(planned.input@[0].witness).len() == 0
            &&& planned.output@.len() == 1
            &&& fee_amount <= funded.amount ==> planned.output@[0].value == funded.amount - fee_amount
            &&& planned.output@[0].script_pubkey@ == htlc.refund_config->0.refund_address.script()
            &&& prevouts@.len() == 1
            &&& prevouts@[0].value == funded.amount
            &&& prevouts@[0].script_pubkey@ == seq![0x51u8, key.len() as u8] + key
            &&& leaf_hash@ == script_leaf_hash(refund@)
            &&& g matches Err(words) ==> r == Err::<FeeSpend, HtlcError>(
                HtlcError::SignatureBuilding(words),
            )
            &&& g is Ok ==> exists|
                c: Result<Vec<Vec<u8>>, String>,
            | {
                    &&& #[trigger] call_ensures(
                        B::get_sigmsg_components,
                        (
                            builder,
                            &g->Ok_0.transaction,
                            0usize,
                            &prevouts,
                            &leaf_hash,
                            TapSighashType::Default,
                        ),
                        c,
                    )
                    &&& c matches Err(words) ==> r == Err::<FeeSpend, HtlcError>(
                        HtlcError::SignatureBuilding(words),
                    )
                    &&& c is Ok ==> exists|s: Result<[u8; 64], String>| {
                        &&& #[trigger] call_ensures(
                            B::compute_signature_from_components,
                            (builder, &g->Ok_0.signature_components),
                            s,
                        )
                        &&& s matches Err(words) ==> r == Err::<FeeSpend, HtlcError>(
                            HtlcError::SignatureBuilding(words),
                        )
                        &&& s is Ok ==> r is Ok
                        &&& s is Ok && g->Ok_0.transaction.input@.len() == 1 ==> forall|
                            message: [u8; 32],
                        | #[trigger]
                            call_ensures(
                                compute_taproot_sighash,
                                (
                                    &g->Ok_0.transaction,
                                    0usize,
                                    &prevouts,
                                    &leaf_hash,
                                    TapSighashType::Default,
                                ),
                                Ok(message),
                            ) ==> r->Ok_0.message@ == message@
                        &&& s is Ok && g->Ok_0.transaction.input@.len() > 0
                            && g->Ok_0.transaction.output@.len() > 0
                            && c->Ok_0@.len() > 8 ==> {
                            let tx = r->Ok_0.transaction;
                            let found = g->Ok_0.transaction;
                            let items = witness_items(tx.input@[0].witness);
                            let n = c->Ok_0@.len() as int;
                            &&& tx.version == found.version
                            &&& tx.lock_time == found.lock_time
                            &&& tx.input@.len() == found.input@.len()
                            &&& tx.output@.len() == found.output@.len()
                            &&& tx.input@[0].previous_output == found.input@[0].previous_output
                            &&& tx.input@[0].script_sig@ == found.input@[0].script_sig@
                            &&& tx.input@[0].sequence == found.input@[0].sequence
                            &&& forall|i: int|
                                #![trigger g->Ok_0.transaction.input@[i]]
                                1 <= i < found.input@.len() ==> {
                                    &&& tx.input@[i].previous_output == found.input@[i].previous_output
                                    &&& tx.input@[i].script_sig@ == found.input@[i].script_sig@
                                    &&& tx.input@[i].sequence == found.input@[i].sequence
                                    &&& witness_items(tx.input@[i].witness) == witness_items(
                                        found.input@[i].witness,
                                    )
                                }
                            &&& forall|i: int|
                                #![trigger g->Ok_0.transaction.output@[i]]
                                0 <= i < found.output@.len() ==> {
                                    &&& tx.output@[i].value == found.output@[i].value
                                    &&& tx.output@[i].script_pubkey@ == found.output@[i].script_pubkey@
                                }
                            &&& items.len() == n + 5
                            &&& forall|i: int|
                                0 <= i < n && i != 8 ==> items[i] == (#[trigger] c->Ok_0@[i])@
                            &&& items[8] == vstd::bytes::spec_u64_to_le_bytes(found.output@[0].value)
                            &&& items[n].len() == 63
                            &&& forall|i: int| 0 <= i < 63 ==> items[n][i] == #[trigger] s->Ok_0@[i]
                            &&& items[n + 1] == seq![s->Ok_0@[63]]
                            &&& s->Ok_0@[63] < 255 ==> items[n + 2] == seq![(s->Ok_0@[63] + 1) as u8]
                            &&& items[n + 3] == refund@
                            &&& items[n + 4] == seq![(0xc0 + parity) as u8] + nums_key_bytes()
                                + script_leaf_hash(redeem@)
                        }
                    }
                }
        },
{
    if htlc.can_refund() {
        let (redeem, refund) = choose|redeem: Vec<u8>, refund: Vec<u8>| #[trigger]
            htlc.leaves_with_fee(scripts, redeem, refund) && whole_outcome(
                builder,
                htlc.plan(
                    htlc.refund_transaction(fee_amount),
                    two_leaf_tree(redeem@, refund@).output_key(),
                    refund@,
                ),
                two_leaf_tree(redeem@, refund@),
                refund@,
                Unlock::Timeout,
                fee_spend_view(r),
            );
        let tree = two_leaf_tree(redeem@, refund@);
        let plan = htlc.plan(htlc.refund_transaction(fee_amount), tree.output_key(), refund@);
        let answers = lemma_whole_answers(
            builder,
            plan,
            tree,
            refund@,
            Unlock::Timeout,
            fee_spend_view(r),
        );
        let Answers { plan: p, ground: g, parts: c, signature: s } = answers;
        let prevouts = p.prevouts;
        let leaf_hash = p.leaf_hash;
        lemma_plans(
            p,
            htlc.htlc_funded_utxo->0,
            tree.output_key(),
            script_leaf_hash(refund@),
            relative_height(htlc.refund_config->0.refund_lock),
            htlc.refund_config->0.refund_address.script(),
            fee_amount,
        );
        let block = tree.control_block(refund@)->0;
        if g is Ok && Unlock::Timeout.is_known() && c is Ok && s is Ok {
            if g->Ok_0.transaction.input@.len() > 0
                && g->Ok_0.transaction.output@.len() > 0
                && c->Ok_0@.len() > 8 {
                lemma_signed(
                    r->Ok_0.transaction,
                    g->Ok_0.transaction,
                    witness_stack(
                        parts_with_value(g->Ok_0.transaction@.output[0].value)(
                            byte_strings(c->Ok_0@),
                        ),
                        s->Ok_0@,
                        None,
                        refund@,
                        block,
                    ),
                );
                lemma_shows_value(
                    c->Ok_0@,
                    g->Ok_0.transaction.output@[0].value,
                    s->Ok_0,
                    None,
                    refund@,
                    block,
                );
                assert(outputs_view(g->Ok_0.transaction.output@)[0]
                    == g->Ok_0.transaction.output@[0]@);
            }
        }
        assert(call_ensures(
            B::grind_transaction,
            (builder, p.transaction, GrindField::LockTime, &prevouts, &leaf_hash),
            g,
        ));
        if g is Ok && Unlock::Timeout.is_known() {
            assert(call_ensures(
                B::get_sigmsg_components,
                (
                    builder,
                    &g->Ok_0.transaction,
                    0usize,
                    &prevouts,
                    &leaf_hash,
                    TapSighashType::Default,
                ),
                c,
            ));
            if c is Ok {
                assert(call_ensures(
                    B::compute_signature_from_components,
                    (builder, &g->Ok_0.signature_components),
                    s,
                ));
            }
        }
    }
}

/// The witness of a signature on one input and one output, as the outside sees it: the parts that
/// the builder answers for these very arguments, in their order, the signature that it answers for
/// these very components, the script and its control block. The first refusal is handed on.
pub proof fn law_single_witness<B: SignatureBuilder>(
    htlc: &HTLC,
    builder: &B,
    tx: &Transaction,
    input_index: usize,
    prevouts: &Vec<TxOut>,
    leaf_hash: &[u8; 32],
    script: &Vec<u8>,
    info: &TaprootSpendInfo,
    signature_components: &Vec<Vec<u8>>,
    r: Result<bitcoin::Witness, HtlcError>,
)
    requires
        call_ensures(
            HTLC::build_witness_single_anyonecanpay::<B>,
            (
                htlc,
                builder,
                tx,
                input_index,
                prevouts,
                leaf_hash,
                script,
                info,
                signature_components,
                None,
            ),
            r,
        ),
    ensures
        exists|c: Result<Vec<Vec<u8>>, String>| {
            &&& #[trigger] call_ensures(
                B::get_sigmsg_components,
                (
                    builder,
                    tx,
                    input_index,
                    prevouts,
                    leaf_hash,
                    TapSighashType::SinglePlusAnyoneCanPay,
                ),
                c,
            )
            &&& c matches Err(words) ==> r == Err::<bitcoin::Witness, HtlcError>(
                HtlcError::SignatureBuilding(words),
            )
            &&& c is Ok ==> exists|s: Result<[u8; 64], String>| {
                &&& #[trigger] call_ensures(
                    B::compute_signature_from_components,
                    (builder, signature_components),
                    s,
                )
                &&& s matches Err(words) ==> r == Err::<bitcoin::Witness, HtlcError>(
                    HtlcError::SignatureBuilding(words),
                )
                &&& s is Ok ==> r is Ok
                &&& s is Ok ==> {
                    let items = witness_items(r->Ok_0);
                    let n = c->Ok_0@.len() as int;
                    let parity = two_leaf_output(
                        info@.internal_key,
                        info@.first,
                        info@.second,
                    ).1;
                    &&& items.len() == n + 5
                    &&& forall|i: int|
                        0 <= i < n ==> items[i] == (#[trigger] c->Ok_0@[i])@
                    &&& items[n].len() == 63
                    &&& forall|i: int| 0 <= i < 63 ==> items[n][i] == #[trigger] s->Ok_0@[i]
                    &&& items[n + 1] == seq![s->Ok_0@[63]]
                    &&& s->Ok_0@[63] < 255 ==> items[n + 2] == seq![(s->Ok_0@[63] + 1) as u8]
                    &&& items[n + 3] == script@
                    &&& script@ == info@.first ==> items[n + 4] == seq![(0xc0 + parity) as u8]
                        + info@.internal_key + script_leaf_hash(info@.second)
                    &&& script@ == info@.second ==> items[n + 4] == seq![(0xc0 + parity) as u8]
                        + info@.internal_key + script_leaf_hash(info@.first)
                }
            }
        },
{
    let request = witness_request(
        tx,
        input_index,
        prevouts,
        leaf_hash,
        signature_components,
        script@,
        None,
    );
    let block = info@.control_block(script@)->0;
    let shown = all_parts();
    let kind = TapSighashType::SinglePlusAnyoneCanPay;
    let w = witness_view(r);
    let c = choose|c: Result<Vec<Vec<u8>>, String>| #[trigger]
        request.components(builder, kind, c) && after_parts(builder, request, c, shown, block, w);
    let s = choose|s: Result<[u8; 64], String>| #[trigger]
        request.signature(builder, s) && after_signature(request, c->Ok_0, s, shown, block, w);
    if c is Ok && s is Ok {
        lemma_shows(c->Ok_0@, s->Ok_0, None, script@, block);
    }
    assert(call_ensures(
        B::get_sigmsg_components,
        (builder, tx, input_index, prevouts, leaf_hash, kind),
        c,
    ));
    if c is Ok {
        assert(call_ensures(
            B::compute_signature_from_components,
            (builder, signature_components),
            s,
        ));
    }
}

/// The witness of a signature on one input and one output that shows a preimage, as the outside
/// sees it: the parts that the builder answers for these very arguments, in their order, the
/// signature that it answers for these very components, the preimage, the script and its control
/// block. The first refusal is handed on.
pub proof fn law_single_witness_with_preimage<B: SignatureBuilder>(
    htlc: &HTLC,
    builder: &B,
    tx: &Transaction,
    input_index: usize,
    prevouts: &Vec<TxOut>,
    leaf_hash: &[u8; 32],
    script: &Vec<u8>,
    info: &TaprootSpendInfo,
    signature_components: &Vec<Vec<u8>>,
    preimage: &Vec<u8>,
    r: Result<bitcoin::Witness, HtlcError>,
)
    requires
        call_ensures(
            HTLC::build_witness_single_anyonecanpay::<B>,
            (
                htlc,
                builder,
                tx,
                input_index,
                prevouts,
                leaf_hash,
                script,
                info,
                signature_components,
                Some(preimage),
            ),
            r,
        ),
    ensures
        exists|c: Result<Vec<Vec<u8>>, String>| {
            &&& #[trigger] call_ensures(
                B::get_sigmsg_components,
                (
                    builder,
                    tx,
                    input_index,
                    prevouts,
                    leaf_hash,
                    TapSighashType::SinglePlusAnyoneCanPay,
                ),
                c,
            )
            &&& c matches Err(words) ==> r == Err::<bitcoin::Witness, HtlcError>(
                HtlcError::SignatureBuilding(words),
            )
            &&& c is Ok ==> exists|s: Result<[u8; 64], String>| {
                &&& #[trigger] call_ensures(
                    B::compute_signature_from_components,
                    (builder, signature_components),
                    s,
                )
                &&& s matches Err(words) ==> r == Err::<bitcoin::Witness, HtlcError>(
                    HtlcError::SignatureBuilding(words),
                )
                &&& s is Ok ==> r is Ok
                &&& s is Ok ==> {
                    let items = witness_items(r->Ok_0);
                    let n = c->Ok_0@.len() as int;
                    let parity = two_leaf_output(
                        info@.internal_key,
                        info@.first,
                        info@.second,
                    ).1;
                    &&& items.len() == n + 6
                    &&& forall|i: int|
                        0 <= i < n ==> items[i] == (#[trigger] c->Ok_0@[i])@
                    &&& items[n].len() == 63
                    &&& forall|i: int| 0 <= i < 63 ==> items[n][i] == #[trigger] s->Ok_0@[i]
                    &&& items[n + 1] == seq![s->Ok_0@[63]]
                    &&& s->Ok_0@[63] < 255 ==> items[n + 2] == seq![(s->Ok_0@[63] + 1) as u8]
                    &&& items[n + 3] == preimage@
                    &&& items[n + 4] == script@
                    &&& script@ == info@.first ==> items[n + 5] == seq![(0xc0 + parity) as u8]
                        + info@.internal_key + script_leaf_hash(info@.second)
                    &&& script@ == info@.second ==> items[n + 5] == seq![(0xc0 + parity) as u8]
                        + info@.internal_key + script_leaf_hash(info@.first)
                }
            }
        },
{
    let request = witness_request(
        tx,
        input_index,
        prevouts,
        leaf_hash,
        signature_components,
        script@,
        Some(preimage@),
    );
    let block = info@.control_block(script@)->0;
    let shown = all_parts();
    let kind = TapSighashType::SinglePlusAnyoneCanPay;
    let w = witness_view(r);
    let c = choose|c: Result<Vec<Vec<u8>>, String>| #[trigger]
        request.components(builder, kind, c) && after_parts(builder, request, c, shown, block, w);
    let s = choose|s: Result<[u8; 64], String>| #[trigger]
        request.signature(builder, s) && after_signature(request, c->Ok_0, s, shown, block, w);
    if c is Ok && s is Ok {
        lemma_shows(c->Ok_0@, s->Ok_0, Some(preimage@), script@, block);
    }
    assert(call_ensures(
        B::get_sigmsg_components,
        (builder, tx, input_index, prevouts, leaf_hash, kind),
        c,
    ));
    if c is Ok {
        assert(call_ensures(
            B::compute_signature_from_components,
            (builder, signature_components),
            s,
        ));
    }
}

/// The witness of a signature on a whole transaction, as the outside sees it: the parts that the
/// builder answers for these very arguments, in their order and with the value of the first output
/// as the ninth, the signature that it answers for these very components, the script and its
/// control block. The first refusal is handed on.
pub proof fn law_whole_witness<B: SignatureBuilder>(
    htlc: &HTLC,
    builder: &B,
    tx: &Transaction,
    input_index: usize,
    prevouts: &Vec<TxOut>,
    leaf_hash: &[u8; 32],
    script: &Vec<u8>,
    info: &TaprootSpendInfo,
    signature_components: &Vec<Vec<u8>>,
    r: Result<bitcoin::Witness, HtlcError>,
)
    requires
        call_ensures(
            HTLC::build_witness_all::<B>,
            (
                htlc,
                builder,
                tx,
                input_index,
                prevouts,
                leaf_hash,
                script,
                info,
                signature_components,
                None,
            ),
            r,
        ),
    ensures
        exists|c: Result<Vec<Vec<u8>>, String>| {
            &&& #[trigger] call_ensures(
                B::get_sigmsg_components,
                (
                    builder,
                    tx,
                    input_index,
                    prevouts,
                    leaf_hash,
                    TapSighashType::Default,
                ),
                c,
            )
            &&& c matches Err(words) ==> r == Err::<bitcoin::Witness, HtlcError>(
                HtlcError::SignatureBuilding(words),
            )
            &&& c is Ok ==> exists|s: Result<[u8; 64], String>| {
                &&& #[trigger] call_ensures(
                    B::compute_signature_from_components,
                    (builder, signature_components),
                    s,
                )
                &&& s matches Err(words) ==> r == Err::<bitcoin::Witness, HtlcError>(
                    HtlcError::SignatureBuilding(words),
                )
                &&& s is Ok ==> r is Ok
                &&& s is Ok && tx.output@.len() > 0 && c->Ok_0@.len() > 8 ==> {
                    let items = witness_items(r->Ok_0);
                    let n = c->Ok_0@.len() as int;
                    let parity = two_leaf_output(
                        info@.internal_key,
                        info@.first,
                        info@.second,
                    ).1;
                    &&& items.len() == n + 5
                    &&& forall|i: int|
                        0 <= i < n && i != 8 ==> items[i] == (#[trigger] c->Ok_0@[i])@
                    &&& items[8] == vstd::bytes::spec_u64_to_le_bytes(tx.output@[0].value)
                    &&& items[n].len() == 63
                    &&& forall|i: int| 0 <= i < 63 ==> items[n][i] == #[trigger] s->Ok_0@[i]
                    &&& items[n + 1] == seq![s->Ok_0@[63]]
                    &&& s->Ok_0@[63] < 255 ==> items[n + 2] == seq![(s->Ok_0@[63] + 1) as u8]
                    &&& items[n + 3] == script@
                    &&& script@ == info@.first ==> items[n + 4] == seq![(0xc0 + parity) as u8]
                        + info@.internal_key + script_leaf_hash(info@.second)
                    &&& script@ == info@.second ==> items[n + 4] == seq![(0xc0 + parity) as u8]
                        + info@.internal_key + script_leaf_hash(info@.first)
                }
            }
        },
{
    let request = witness_request(
        tx,
        input_index,
        prevouts,
        leaf_hash,
        signature_components,
        script@,
        None,
    );
    let block = info@.control_block(script@)->0;
    let shown = parts_with_value(tx@.output[0].value);
    let kind = TapSighashType::Default;
    let w = witness_view(r);
    let c = choose|c: Result<Vec<Vec<u8>>, String>| #[trigger]
        request.components(builder, kind, c) && after_parts(builder, request, c, shown, block, w);
    let s = choose|s: Result<[u8; 64], String>| #[trigger]
        request.signature(builder, s) && after_signature(request, c->Ok_0, s, shown, block, w);
    if c is Ok && s is Ok && tx.output@.len() > 0 && c->Ok_0@.len() > 8 {
        lemma_shows_value(
            c->Ok_0@,
            tx.output@[0].value,
            s->Ok_0,
            None,
            script@,
            block,
        );
        assert(outputs_view(tx.output@)[0] == tx.output@[0]@);
    }
    assert(call_ensures(
        B::get_sigmsg_components,
        (builder, tx, input_index, prevouts, leaf_hash, kind),
        c,
    ));
    if c is Ok {
        assert(call_ensures(
            B::compute_signature_from_components,
            (builder, signature_components),
            s,
        ));
    }
}

/// The witness of a signature on a whole transaction that shows a preimage, as the outside sees it:
/// the parts that the builder answers for these very arguments, in their order and with the value
/// of the first output as the ninth, the signature that it answers for these very components, the
/// preimage, the script and its control block. The first refusal is handed on.
pub proof fn law_whole_witness_with_preimage<B: SignatureBuilder>(
    htlc: &HTLC,
    builder: &B,
    tx: &Transaction,
    input_index: usize,
    prevouts: &Vec<TxOut>,
    leaf_hash: &[u8; 32],
    script: &Vec<u8>,
    info: &TaprootSpendInfo,
    signature_components: &Vec<Vec<u8>>,
    preimage: &Vec<u8>,
    r: Result<bitcoin::Witness, HtlcError>,
)
    requires
        call_ensures(
            HTLC::build_witness_all::<B>,
            (
                htlc,
                builder,
                tx,
                input_index,
                prevouts,
                leaf_hash,
                script,
                info,
                signature_components,
                Some(preimage),
            ),
            r,
        ),
    ensures
        exists|c: Result<Vec<Vec<u8>>, String>| {
            &&& #[trigger] call_ensures(
                B::get_sigmsg_components,
                (
                    builder,
                    tx,
                    input_index,
                    prevouts,
                    leaf_hash,
                    TapSighashType::Default,
                ),
                c,
            )
            &&& c matches Err(words) ==> r == Err::<bitcoin::Witness, HtlcError>(
                HtlcError::SignatureBuilding(words),
            )
            &&& c is Ok ==> exists|s: Result<[u8; 64], String>| {
                &&& #[trigger] call_ensures(
                    B::compute_signature_from_components,
                    (builder, signature_components),
                    s,
                )
                &&& s matches Err(words) ==> r == Err::<bitcoin::Witness, HtlcError>(
                    HtlcError::SignatureBuilding(words),
                )
                &&& s is Ok ==> r is Ok
                &&& s is Ok && tx.output@.len() > 0 && c->Ok_0@.len() > 8 ==> {
                    let items = witness_items(r->Ok_0);
                    let n = c->Ok_0@.len() as int;
                    let parity = two_leaf_output(
                        info@.internal_key,
                        info@.first,
                        info@.second,
                    ).1;
                    &&& items.len() == n + 6
                    &&& forall|i: int|
                        0 <= i < n && i != 8 ==> items[i] == (#[trigger] c->Ok_0@[i])@
                    &&& items[8] == vstd::bytes::spec_u64_to_le_bytes(tx.output@[0].value)
                    &&& items[n].len() == 63
                    &&& forall|i: int| 0 <= i < 63 ==> items[n][i] == #[trigger] s->Ok_0@[i]
                    &&& items[n + 1] == seq![s->Ok_0@[63]]
                    &&& s->Ok_0@[63] < 255 ==> items[n + 2] == seq![(s->Ok_0@[63] + 1) as u8]
                    &&& items[n + 3] == preimage@
                    &&& items[n + 4] == script@
                    &&& script@ == info@.first ==> items[n + 5] == seq![(0xc0 + parity) as u8]
                        + info@.internal_key + script_leaf_hash(info@.second)
                    &&& script@ == info@.second ==> items[n + 5] == seq![(0xc0 + parity) as u8]
                        + info@.internal_key + script_leaf_hash(info@.first)
                }
            }
        },
{
    let request = witness_request(
        tx,
        input_index,
        prevouts,
        leaf_hash,
        signature_components,
        script@,
        Some(preimage@),
    );
    let block = info@.control_block(script@)->0;
    let shown = parts_with_value(tx@.output[0].value);
    let kind = TapSighashType::Default;
    let w = witness_view(r);
    let c = choose|c: Result<Vec<Vec<u8>>, String>| #[trigger]
        request.components(builder, kind, c) && after_parts(builder, request, c, shown, block, w);
    let s = choose|s: Result<[u8; 64], String>| #[trigger]
        request.signature(builder, s) && after_signature(request, c->Ok_0, s, shown, block, w);
    if c is Ok && s is Ok && tx.output@.len() > 0 && c->Ok_0@.len() > 8 {
        lemma_shows_value(
            c->Ok_0@,
            tx.output@[0].value,
            s->Ok_0,
            Some(preimage@),
            script@,
            block,
        );
        assert(outputs_view(tx.output@)[0] == tx.output@[0]@);
    }
    assert(call_ensures(
        B::get_sigmsg_components,
        (builder, tx, input_index, prevouts, leaf_hash, kind),
        c,
    ));
    if c is Ok {
        assert(call_ensures(
            B::compute_signature_from_components,
            (builder, signature_components),
            s,
        ));
    }
}

} // verus!
