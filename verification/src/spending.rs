//! From a funded output to a signed transaction that spends it.

use vstd::prelude::*;

use crate::address::{witness_program_script, Address, Network};
use crate::contract::{HtlcFunded, HTLC};
use crate::error::HtlcError;
use crate::hexadecimal::{decode_hex, hex_bytes, is_hex};
use crate::sighash::{compute_taproot_sighash, script_spend_digest, signing_data, TapSighashType};
use crate::signature_building::{ContractComponents, GrindField, SignatureBuilder};
use crate::taproot::{TapTree, TaprootSpendInfo};
use crate::transaction::{new_input, outputs_view, unsigned_input};
use crate::transaction::{Transaction, TransactionView, TxInView, TxOut, TxOutView};
use crate::witness::witness_items;
use crate::witness_building::{all_parts, parts_with_value, witness_outcome};
use crate::witness_building::{witness_request, witness_view, WitnessRequest};

verus! {

/// The chain for which the address of the spent output is written.
pub const NETWORK: Network = Network::Signet;

/// What is handed over to be signed: the transaction without its witness, the output that it
/// spends, and the hash of the leaf that it opens.
#[derive(Debug)]
pub struct SpendPlan {
    pub transaction: Transaction,
    pub prevouts: Vec<TxOut>,
    pub leaf_hash: [u8; 32],
}

/// What a plan holds.
#[verifier::ext_equal]
pub struct SpendPlanView {
    pub transaction: TransactionView,
    pub prevouts: Seq<TxOutView>,
    pub leaf_hash: Seq<u8>,
}

impl View for SpendPlan {
    type V = SpendPlanView;

    open spec fn view(&self) -> SpendPlanView {
        SpendPlanView {
            transaction: self.transaction@,
            prevouts: outputs_view(self.prevouts@),
            leaf_hash: self.leaf_hash@,
        }
    }
}

/// The transaction that moves a funded output to a script, less a fee.
pub open spec fn spend_transaction(
    funded: HtlcFunded,
    sequence: u32,
    destination: Seq<u8>,
    fee: u64,
) -> TransactionView {
    TransactionView {
        version: 2,
        lock_time: 0,
        input: seq![unsigned_input(funded.htlc_outpoint, sequence)],
        output: seq![
            TxOutView { value: (funded.amount - fee) as u64, script_pubkey: destination },
        ],
    }
}

/// The output that a contract is funded with, if it shows this key.
pub open spec fn contract_output(funded: HtlcFunded, output_key: Seq<u8>) -> TxOutView {
    TxOutView { value: funded.amount, script_pubkey: witness_program_script(1, output_key) }
}

/// Plans to move a funded output, which shows `output_key`, to `destination`, less a fee.
pub fn plan_spend(
    funded: &HtlcFunded,
    output_key: &[u8; 32],
    leaf_hash: [u8; 32],
    sequence: u32,
    destination: &Address,
    fee: u64,
) -> (r: SpendPlan)
    requires
        destination.wf(),
        fee <= funded.amount,
    ensures
        r@ == (SpendPlanView {
            transaction: spend_transaction(*funded, sequence, destination.script(), fee),
            prevouts: seq![contract_output(*funded, output_key@)],
            leaf_hash: leaf_hash@,
        }),
{
    let htlc_address = Address::p2tr_tweaked(output_key, NETWORK);
    let htlc_txout = TxOut { value: funded.amount, script_pubkey: htlc_address.script_pubkey() };
    let htlc_txin = new_input(funded.htlc_outpoint, sequence);
    let htlc_output = TxOut {
        value: funded.amount - fee,
        script_pubkey: destination.script_pubkey(),
    };
    let transaction = Transaction {
        version: 2,
        lock_time: 0,
        input: vec![htlc_txin],
        output: vec![htlc_output],
    };
    let prevouts: Vec<TxOut> = vec![htlc_txout];
    proof {
        let planned = spend_transaction(*funded, sequence, destination.script(), fee);
        assert(transaction@.input =~= planned.input);
        assert(transaction@.output =~= planned.output);
        assert(outputs_view(prevouts@) =~= seq![contract_output(*funded, output_key@)]);
    }
    SpendPlan { transaction, prevouts, leaf_hash }
}

/// The sequence number that locks an input for a number of blocks. Only the low sixteen bits of
/// the number count.
pub open spec fn relative_height(refund_lock: i64) -> u32 {
    (refund_lock as int % 0x1_0000) as u32
}

/// Gives the sequence number that locks an input for a number of blocks.
pub fn sequence_from_lock(refund_lock: i64) -> (r: u32)
    ensures
        r == relative_height(refund_lock),
{
    let height: u16 = #[verifier::truncate] (refund_lock as u16);
    proof {
        assert(refund_lock as u16 == refund_lock % 0x1_0000i64) by (bit_vector);
    }
    height as u32
}

/// The transaction with a witness on its first input.
pub open spec fn with_witness(tx: TransactionView, items: Seq<Seq<u8>>) -> TransactionView {
    TransactionView {
        input: tx.input.update(0, TxInView { witness: items, ..tx.input[0] }),
        ..tx
    }
}

/// Puts a witness on the first input of a transaction.
pub fn attach_witness(tx: Transaction, witness: bitcoin::Witness) -> (r: Transaction)
    requires
        tx.input@.len() > 0,
    ensures
        r@ == with_witness(tx@, witness_items(witness)),
{
    let mut tx = tx;
    let ghost before = tx@;
    tx.input[0].witness = witness;
    proof {
        assert(tx@.input =~= with_witness(before, witness_items(witness)).input);
    }
    tx
}

/// What a spender can show: that the timeout has passed, or the preimage as far as it is known.
pub enum Unlock<'a> {
    Timeout,
    Preimage(&'a Option<String>),
}

impl<'a> Unlock<'a> {
    /// Whether there is nothing left to find out.
    pub open spec fn is_known(self) -> bool {
        self matches Unlock::Preimage(preimage) ==> *preimage is Some
    }

    /// Whether the preimage can be read, if it is known.
    pub open spec fn is_readable(self) -> bool {
        self matches Unlock::Preimage(preimage) ==> (*preimage matches Some(text) ==> is_hex(
            text@,
        ))
    }

    /// The preimage to show, if any.
    pub open spec fn bytes(self) -> Option<Seq<u8>> {
        match self {
            Unlock::Timeout => None,
            Unlock::Preimage(preimage) => Some(hex_bytes((*preimage)->0@)),
        }
    }
}

/// Whether the builder may answer this when it is asked to grind the lock time of a plan.
pub open spec fn ground<B: SignatureBuilder>(
    builder: &B,
    plan: SpendPlan,
    g: Result<ContractComponents, String>,
) -> bool {
    call_ensures(
        B::grind_transaction,
        (builder, plan.transaction, GrindField::LockTime, &plan.prevouts, &plan.leaf_hash),
        g,
    )
}

/// What the witness of a ground transaction is built from.
pub open spec fn ground_request(
    plan: SpendPlan,
    g: ContractComponents,
    script: Seq<u8>,
    preimage: Option<Seq<u8>>,
) -> WitnessRequest {
    witness_request(
        &g.transaction,
        0,
        &plan.prevouts,
        &plan.leaf_hash,
        &g.signature_components,
        script,
        preimage,
    )
}

/// The outcome of signing a plan for one input and one output, whatever the builder answers. A
/// refusal to grind comes first, then a missing preimage, then the outcome of building the
/// witness, which is put on the first input of the ground transaction.
pub open spec fn single_outcome<B: SignatureBuilder>(
    builder: &B,
    plan: SpendPlanView,
    tree: TapTree,
    script: Seq<u8>,
    unlock: Unlock,
    r: Result<TransactionView, HtlcError>,
) -> bool {
    exists|p: SpendPlan, g: Result<ContractComponents, String>|
        p@ == plan && #[trigger] ground(builder, p, g) && single_after_grinding(
            builder,
            p,
            g,
            tree,
            script,
            unlock,
            r,
        )
}

/// The outcome of signing once the builder has said what grinding gave.
pub open spec fn single_after_grinding<B: SignatureBuilder>(
    builder: &B,
    p: SpendPlan,
    g: Result<ContractComponents, String>,
    tree: TapTree,
    script: Seq<u8>,
    unlock: Unlock,
    r: Result<TransactionView, HtlcError>,
) -> bool {
    match g {
        Err(words) => r == Err::<TransactionView, HtlcError>(HtlcError::SignatureBuilding(words)),
        Ok(found) => if !unlock.is_known() {
            r == Err::<TransactionView, HtlcError>(HtlcError::PreimageRequired)
        } else {
            exists|w: Result<Seq<Seq<u8>>, HtlcError>| #[trigger]
                witness_outcome(
                    builder,
                    ground_request(p, found, script, unlock.bytes()),
                    TapSighashType::SinglePlusAnyoneCanPay,
                    all_parts(),
                    tree.control_block(script)->0,
                    w,
                ) && match w {
                    Err(e) => r == Err::<TransactionView, HtlcError>(e),
                    Ok(items) => r == Ok::<TransactionView, HtlcError>(
                        with_witness(found.transaction@, items),
                    ),
                }
        },
    }
}

/// Whether every answer of the builder can be used to sign a plan for one input and one output.
/// Where the builder grinds, the preimage can be read if it is known, and where it makes the
/// signature too, there is an input to put the witness on.
pub open spec fn usable_for_single<B: SignatureBuilder>(
    builder: &B,
    plan: SpendPlanView,
    script: Seq<u8>,
    unlock: Unlock,
) -> bool {
    forall|p: SpendPlan, g: ContractComponents|
        p@ == plan && #[trigger] ground(builder, p, Ok(g)) ==> {
            let request = ground_request(p, g, script, unlock.bytes());
            let kind = TapSighashType::SinglePlusAnyoneCanPay;
            &&& unlock.is_readable()
            &&& unlock.is_known() ==> {
                &&& request.buildable(builder, kind, 13, all_parts())
                &&& request.answered(builder, kind) ==> g.transaction.input@.len() > 0
            }
        }
}

/// What of a transaction is shown to others.
pub open spec fn transaction_view(r: Result<Transaction, HtlcError>) -> Result<
    TransactionView,
    HtlcError,
> {
    match r {
        Ok(tx) => Ok(tx@),
        Err(e) => Err(e),
    }
}

/// Reads what a spender shows, or finds that the preimage is missing.
fn open_unlock<'a>(unlock: Unlock<'a>) -> (r: Result<Option<Vec<u8>>, HtlcError>)
    requires
        unlock.is_readable(),
    ensures
        match r {
            Ok(Some(bytes)) => unlock.is_known() && unlock.bytes() == Some(bytes@),
            Ok(None) => unlock.is_known() && unlock.bytes() is None,
            Err(e) => !unlock.is_known() && e == HtlcError::PreimageRequired,
        },
{
    match unlock {
        Unlock::Timeout => Ok(None),
        Unlock::Preimage(preimage) => match preimage {
            None => Err(HtlcError::PreimageRequired),
            Some(text) => Ok(Some(decode_hex(text.as_str()).unwrap())),
        },
    }
}

impl HTLC {
    /// Has a plan signed for one input and one output, and puts the witness in place.
    pub(crate) fn spend_single<'a, B: SignatureBuilder>(
        &self,
        builder: &B,
        plan: SpendPlan,
        spend_info: &TaprootSpendInfo,
        script: &Vec<u8>,
        unlock: Unlock<'a>,
    ) -> (r: Result<Transaction, HtlcError>)
        requires
            script@ == spend_info@.first || script@ == spend_info@.second,
            plan@.prevouts.len() == 1,
            usable_for_single(builder, plan@, script@, unlock),
        ensures
            single_outcome(builder, plan@, spend_info@, script@, unlock, transaction_view(r)),
    {
        let ghost p = plan;
        let SpendPlan { transaction, prevouts, leaf_hash } = plan;
        let found = match builder.grind_transaction(
            transaction,
            GrindField::LockTime,
            &prevouts,
            &leaf_hash,
        ) {
            Ok(found) => found,
            Err(words) => {
                proof {
                    assert(ground(builder, p, Err(words)));
                }
                return Err(HtlcError::SignatureBuilding(words));
            },
        };
        proof {
            assert(ground(builder, p, Ok(found)));
        }
        let preimage = match open_unlock(unlock) {
            Ok(preimage) => preimage,
            Err(e) => {
                return Err(e);
            },
        };
        let witness = self.build_witness_single_anyonecanpay(
            builder,
            &found.transaction,
            0,
            &prevouts,
            &leaf_hash,
            script,
            spend_info,
            &found.signature_components,
            preimage.as_ref(),
        );
        let ghost w = witness_view(witness);
        proof {
            assert(witness_outcome(
                builder,
                ground_request(p, found, script@, unlock.bytes()),
                TapSighashType::SinglePlusAnyoneCanPay,
                all_parts(),
                spend_info@.control_block(script@)->0,
                w,
            ));
        }
        match witness {
            Err(e) => Err(e),
            Ok(witness) => Ok(attach_witness(found.transaction, witness)),
        }
    }
}

/// A signed transaction whose spender named the fee, and the message that its signature signs.
#[derive(Debug)]
pub struct FeeSpend {
    pub transaction: Transaction,
    pub message: [u8; 32],
}

/// What of a signed transaction is shown to others.
pub open spec fn fee_spend_view(r: Result<FeeSpend, HtlcError>) -> Result<
    (TransactionView, Seq<u8>),
    HtlcError,
> {
    match r {
        Ok(spend) => Ok((spend.transaction@, spend.message@)),
        Err(e) => Err(e),
    }
}

/// The message that a signature on the whole of a ground transaction signs.
pub open spec fn whole_message(tx: TransactionView, plan: SpendPlanView) -> Seq<u8> {
    script_spend_digest(
        signing_data(tx, 0, plan.prevouts, plan.leaf_hash, TapSighashType::Default.byte()),
    )
}

/// The outcome of signing the whole of a plan, whatever the builder answers. A refusal to grind
/// comes first, then a missing preimage, then the outcome of building the witness, which is put
/// on the first input of the ground transaction.
pub open spec fn whole_outcome<B: SignatureBuilder>(
    builder: &B,
    plan: SpendPlanView,
    tree: TapTree,
    script: Seq<u8>,
    unlock: Unlock,
    r: Result<(TransactionView, Seq<u8>), HtlcError>,
) -> bool {
    exists|p: SpendPlan, g: Result<ContractComponents, String>|
        p@ == plan && #[trigger] ground(builder, p, g) && whole_after_grinding(
            builder,
            p,
            g,
            tree,
            script,
            unlock,
            r,
        )
}

/// The outcome of signing once the builder has said what grinding gave.
pub open spec fn whole_after_grinding<B: SignatureBuilder>(
    builder: &B,
    p: SpendPlan,
    g: Result<ContractComponents, String>,
    tree: TapTree,
    script: Seq<u8>,
    unlock: Unlock,
    r: Result<(TransactionView, Seq<u8>), HtlcError>,
) -> bool {
    match g {
        Err(words) => r == Err::<(TransactionView, Seq<u8>), HtlcError>(
            HtlcError::SignatureBuilding(words),
        ),
        Ok(found) => if !unlock.is_known() {
            r == Err::<(TransactionView, Seq<u8>), HtlcError>(HtlcError::PreimageRequired)
        } else {
            exists|w: Result<Seq<Seq<u8>>, HtlcError>| #[trigger]
                witness_outcome(
                    builder,
                    ground_request(p, found, script, unlock.bytes()),
                    TapSighashType::Default,
                    parts_with_value(found.transaction@.output[0].value),
                    tree.control_block(script)->0,
                    w,
                ) && match w {
                    Err(e) => r == Err::<(TransactionView, Seq<u8>), HtlcError>(e),
                    Ok(items) => r == Ok::<(TransactionView, Seq<u8>), HtlcError>(
                        (
                            with_witness(found.transaction@, items),
                            whole_message(found.transaction@, p@),
                        ),
                    ),
                }
        },
    }
}

/// Whether every answer of the builder can be used to sign the whole of a plan. Where the builder
/// grinds, there is a message to sign, and the preimage can be read if it is known; where it takes
/// the message apart too, there is an output whose value can be shown.
pub open spec fn usable_for_whole<B: SignatureBuilder>(
    builder: &B,
    plan: SpendPlanView,
    script: Seq<u8>,
    unlock: Unlock,
) -> bool {
    forall|p: SpendPlan, g: ContractComponents|
        p@ == plan && #[trigger] ground(builder, p, Ok(g)) ==> {
            let request = ground_request(p, g, script, unlock.bytes());
            let kind = TapSighashType::Default;
            &&& g.transaction.input@.len() == 1
            &&& unlock.is_readable()
            &&& unlock.is_known() ==> {
                &&& request.taken_apart(builder, kind) ==> g.transaction.output@.len() > 0
                &&& request.buildable(
                    builder,
                    kind,
                    9,
                    parts_with_value(g.transaction@.output[0].value),
                )
            }
        }
}

impl HTLC {
    /// Has the whole of a plan signed, and puts the witness in place.
    pub(crate) fn spend_whole<'a, B: SignatureBuilder>(
        &self,
        builder: &B,
        plan: SpendPlan,
        spend_info: &TaprootSpendInfo,
        script: &Vec<u8>,
        unlock: Unlock<'a>,
    ) -> (r: Result<FeeSpend, HtlcError>)
        requires
            script@ == spend_info@.first || script@ == spend_info@.second,
            plan@.prevouts.len() == 1,
            usable_for_whole(builder, plan@, script@, unlock),
        ensures
            whole_outcome(builder, plan@, spend_info@, script@, unlock, fee_spend_view(r)),
    {
        let ghost p = plan;
        let SpendPlan { transaction, prevouts, leaf_hash } = plan;
        let found = match builder.grind_transaction(
            transaction,
            GrindField::LockTime,
            &prevouts,
            &leaf_hash,
        ) {
            Ok(found) => found,
            Err(words) => {
                proof {
                    assert(ground(builder, p, Err(words)));
                }
                return Err(HtlcError::SignatureBuilding(words));
            },
        };
        proof {
            assert(ground(builder, p, Ok(found)));
        }
        let message = match compute_taproot_sighash(
            &found.transaction,
            0,
            &prevouts,
            &leaf_hash,
            TapSighashType::Default,
        ) {
            Ok(message) => message,
            Err(e) => {
                return Err(e);
            },
        };
        let preimage = match open_unlock(unlock) {
            Ok(preimage) => preimage,
            Err(e) => {
                return Err(e);
            },
        };
        let witness = self.build_witness_all(
            builder,
            &found.transaction,
            0,
            &prevouts,
            &leaf_hash,
            script,
            spend_info,
            &found.signature_components,
            preimage.as_ref(),
        );
        let ghost w = witness_view(witness);
        proof {
            assert(witness_outcome(
                builder,
                ground_request(p, found, script@, unlock.bytes()),
                TapSighashType::Default,
                parts_with_value(found.transaction@.output[0].value),
                spend_info@.control_block(script@)->0,
                w,
            ));
        }
        match witness {
            Err(e) => Err(e),
            Ok(witness) => {
                Ok(FeeSpend { transaction: attach_witness(found.transaction, witness), message })
            },
        }
    }
}

} // verus!
