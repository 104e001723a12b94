//! From what transactions, plans and witnesses hold as a whole to what their fields hold.

use vstd::prelude::*;

use crate::contract::HtlcFunded;
use crate::spending::{contract_output, spend_transaction, with_witness, SpendPlan};
use crate::transaction::{inputs_view, outputs_view, Transaction, TxIn, TxOut};
use crate::witness::witness_items;
use crate::witness_building::{byte_strings, parts_with_value, witness_stack};

verus! {

/// Whether two inputs are the same, witness included.
pub open spec fn same_input(a: TxIn, b: TxIn) -> bool {
    &&& same_but_witness(a, b)
    &&& witness_items(a.witness) == witness_items(b.witness)
}

/// Whether two inputs are the same but for their witness.
pub open spec fn same_but_witness(a: TxIn, b: TxIn) -> bool {
    &&& a.previous_output == b.previous_output
    &&& a.script_sig@ == b.script_sig@
    &&& a.sequence == b.sequence
}

/// Whether two outputs are the same.
pub open spec fn same_output(a: TxOut, b: TxOut) -> bool {
    a.value == b.value && a.script_pubkey@ == b.script_pubkey@
}

/// Whether a transaction is another one with a witness on its first input.
pub open spec fn signed(tx: Transaction, unsigned: Transaction, items: Seq<Seq<u8>>) -> bool {
    &&& tx.version == unsigned.version
    &&& tx.lock_time == unsigned.lock_time
    &&& tx.input@.len() == unsigned.input@.len()
    &&& tx.output@.len() == unsigned.output@.len()
    &&& witness_items(tx.input@[0].witness) == items
    &&& same_but_witness(tx.input@[0], unsigned.input@[0])
    &&& forall|i: int|
        1 <= i < tx.input@.len() ==> same_input(#[trigger] tx.input@[i], unsigned.input@[i])
    &&& forall|i: int|
        0 <= i < tx.output@.len() ==> same_output(#[trigger] tx.output@[i], unsigned.output@[i])
}

/// A transaction that holds what another holds with a witness on its first input is that one,
/// signed.
pub(crate) proof fn lemma_signed(tx: Transaction, unsigned: Transaction, items: Seq<Seq<u8>>)
    requires
        unsigned.input@.len() > 0,
        tx@ == with_witness(unsigned@, items),
    ensures
        signed(tx, unsigned, items),
{
    assert(inputs_view(tx.input@).len() == inputs_view(unsigned.input@).len());
    assert(outputs_view(tx.output@).len() == outputs_view(unsigned.output@).len());
    assert(inputs_view(tx.input@)[0] == tx.input@[0]@);
    assert(inputs_view(unsigned.input@)[0] == unsigned.input@[0]@);
    assert forall|i: int| 1 <= i < tx.input@.len() implies same_input(
        #[trigger] tx.input@[i],
        unsigned.input@[i],
    ) by {
        assert(inputs_view(tx.input@)[i] == inputs_view(unsigned.input@)[i]);
    }
    assert forall|i: int| 0 <= i < tx.output@.len() implies same_output(
        #[trigger] tx.output@[i],
        unsigned.output@[i],
    ) by {
        assert(outputs_view(tx.output@)[i] == outputs_view(unsigned.output@)[i]);
    }
}

/// Whether a plan moves an output to a script, less a fee, and names as spent the taproot output
/// of a key, worth the whole amount.
pub open spec fn plans(
    plan: SpendPlan,
    funded: HtlcFunded,
    output_key: Seq<u8>,
    leaf_hash: Seq<u8>,
    sequence: u32,
    destination: Seq<u8>,
    fee: u64,
) -> bool {
    let tx = plan.transaction;
    &&& tx.version == 2
    &&& tx.lock_time == 0
    &&& tx.input@.len() == 1
    &&& tx.input@[0].previous_output == funded.htlc_outpoint
    &&& tx.input@[0].script_sig@.len() == 0
    &&& tx.input@[0].sequence == sequence
    &&& witness_items(tx.input@[0].witness).len() == 0
    &&& tx.output@.len() == 1
    &&& fee <= funded.amount ==> tx.output@[0].value == funded.amount - fee
    &&& tx.output@[0].script_pubkey@ == destination
    &&& plan.prevouts@.len() == 1
    &&& plan.prevouts@[0].value == funded.amount
    &&& plan.prevouts@[0].script_pubkey@ == seq![0x51u8, output_key.len() as u8] + output_key
    &&& plan.leaf_hash@ == leaf_hash
}

/// A plan that holds the transaction, the spent output and the leaf of a spend plans that spend.
pub(crate) proof fn lemma_plans(
    plan: SpendPlan,
    funded: HtlcFunded,
    output_key: Seq<u8>,
    leaf_hash: Seq<u8>,
    sequence: u32,
    destination: Seq<u8>,
    fee: u64,
)
    requires
        plan@.transaction == spend_transaction(funded, sequence, destination, fee),
        plan@.prevouts == seq![contract_output(funded, output_key)],
        plan@.leaf_hash == leaf_hash,
    ensures
        plans(plan, funded, output_key, leaf_hash, sequence, destination, fee),
{
    let tx = plan.transaction;
    assert(inputs_view(tx.input@).len() == 1);
    assert(outputs_view(tx.output@).len() == 1);
    assert(outputs_view(plan.prevouts@).len() == 1);
    assert(inputs_view(tx.input@)[0] == tx.input@[0]@);
    assert(outputs_view(tx.output@)[0] == tx.output@[0]@);
    assert(outputs_view(plan.prevouts@)[0] == plan.prevouts@[0]@);
}

/// Whether a stack shows, from the bottom, the parts of a message, all but the last byte of a
/// signature, that byte, that byte plus one, the preimage if there is one, a script and its control
/// block. Where a value is given, it stands in place of the ninth part.
pub open spec fn shows(
    items: Seq<Seq<u8>>,
    parts: Seq<Vec<u8>>,
    value: Option<u64>,
    signature: Seq<u8>,
    preimage: Option<Seq<u8>>,
    script: Seq<u8>,
    control_block: Seq<u8>,
) -> bool {
    let n = parts.len() as int;
    let m: int = if preimage is Some {
        n + 4
    } else {
        n + 3
    };
    &&& items.len() == m + 2
    &&& forall|i: int| 0 <= i < n && !(i == 8 && value is Some) ==> #[trigger] items[i] == parts[i]@
    &&& value matches Some(v) ==> items[8] == vstd::bytes::spec_u64_to_le_bytes(v)
    &&& items[n].len() == 63
    &&& forall|i: int| 0 <= i < 63 ==> items[n][i] == #[trigger] signature[i]
    &&& items[n + 1].len() == 1
    &&& items[n + 1][0] == signature[63]
    &&& items[n + 2].len() == 1
    &&& signature[63] < 255 ==> items[n + 2][0] == signature[63] + 1
    &&& preimage matches Some(bytes) ==> items[n + 3] == bytes
    &&& items[m] == script
    &&& items[m + 1] == control_block
}

/// The stack that spends a leaf shows what it is made of.
pub(crate) proof fn lemma_shows(
    parts: Seq<Vec<u8>>,
    signature: [u8; 64],
    preimage: Option<Seq<u8>>,
    script: Seq<u8>,
    control_block: Seq<u8>,
)
    ensures
        shows(
            witness_stack(byte_strings(parts), signature@, preimage, script, control_block),
            parts,
            None,
            signature@,
            preimage,
            script,
            control_block,
        ),
{
}

/// The stack that spends a leaf and names a value shows what it is made of.
pub(crate) proof fn lemma_shows_value(
    parts: Seq<Vec<u8>>,
    value: u64,
    signature: [u8; 64],
    preimage: Option<Seq<u8>>,
    script: Seq<u8>,
    control_block: Seq<u8>,
)
    requires
        parts.len() > 8,
    ensures
        shows(
            witness_stack(
                parts_with_value(value)(byte_strings(parts)),
                signature@,
                preimage,
                script,
                control_block,
            ),
            parts,
            Some(value),
            signature@,
            preimage,
            script,
            control_block,
        ),
{
}

} // verus!
