//! The witness that opens a leaf, from the parts of the signed message to the control block.

use vstd::prelude::*;

use crate::contract::HTLC;
use crate::error::HtlcError;
use crate::sighash::TapSighashType;
use crate::signature_building::SignatureBuilder;
use crate::taproot::TaprootSpendInfo;
use crate::transaction::{Transaction, TxOut};
use crate::witness::{content_size, lemma_content_size_prefix, witness_items};
use crate::witness::{witness_new, witness_push};

verus! {

/// Byte strings by their bytes.
pub open spec fn byte_strings(strings: Seq<Vec<u8>>) -> Seq<Seq<u8>> {
    strings.map_values(|s: Vec<u8>| s@)
}

/// A signature as the covenant takes it: all but its last byte, the last byte, and that byte plus
/// one.
pub open spec fn signature_items(signature: Seq<u8>) -> Seq<Seq<u8>> {
    seq![signature.take(63), seq![signature[63]], seq![(signature[63] + 1) as u8]]
}

/// The preimage as items of the stack: one if there is one.
pub open spec fn preimage_items(preimage: Option<Seq<u8>>) -> Seq<Seq<u8>> {
    match preimage {
        Some(bytes) => seq![bytes],
        None => Seq::empty(),
    }
}

/// The witness stack without the control block on its top: the parts of the signed message, the
/// signature, the preimage if there is one, and the script.
pub open spec fn witness_below(
    components: Seq<Seq<u8>>,
    signature: Seq<u8>,
    preimage: Option<Seq<u8>>,
    script: Seq<u8>,
) -> Seq<Seq<u8>> {
    components + signature_items(signature) + preimage_items(preimage) + seq![script]
}

/// The witness stack that spends a leaf.
pub open spec fn witness_stack(
    components: Seq<Seq<u8>>,
    signature: Seq<u8>,
    preimage: Option<Seq<u8>>,
    script: Seq<u8>,
    control_block: Seq<u8>,
) -> Seq<Seq<u8>> {
    witness_below(components, signature, preimage, script).push(control_block)
}

/// The bytes of an optional preimage.
pub open spec fn preimage_bytes(preimage: Option<&Vec<u8>>) -> Option<Seq<u8>> {
    match preimage {
        Some(bytes) => Some(bytes@),
        None => None,
    }
}

/// Puts an item on a witness that is a part of `stack`, from the bottom up to this item.
fn push_next(witness: &mut bitcoin::Witness, item: &[u8], Ghost(stack): Ghost<Seq<Seq<u8>>>)
    requires
        witness_items(*old(witness)).len() < stack.len(),
        witness_items(*old(witness)) == stack.take(witness_items(*old(witness)).len() as int),
        item@ == stack[witness_items(*old(witness)).len() as int],
        content_size(stack.drop_last()) <= u32::MAX,
    ensures
        witness_items(*final(witness)).len() == witness_items(*old(witness)).len() + 1,
        witness_items(*final(witness)) == stack.take(witness_items(*final(witness)).len() as int),
{
    let ghost n = witness_items(*witness).len() as int;
    proof {
        lemma_content_size_prefix(stack.drop_last(), n);
        assert(stack.drop_last().take(n) =~= stack.take(n));
        assert(stack.take(n).push(item@) =~= stack.take(n + 1));
    }
    witness_push(witness, item);
}

/// Lays the witness stack that spends a leaf.
pub fn lay_witness(
    components: &Vec<Vec<u8>>,
    signature: &[u8; 64],
    preimage: Option<&Vec<u8>>,
    script: &Vec<u8>,
    control_block: &Vec<u8>,
) -> (r: bitcoin::Witness)
    requires
        signature@[63] < 255,
        content_size(
            witness_below(
                byte_strings(components@),
                signature@,
                preimage_bytes(preimage),
                script@,
            ),
        ) <= u32::MAX,
    ensures
        witness_items(r) == witness_stack(
            byte_strings(components@),
            signature@,
            preimage_bytes(preimage),
            script@,
            control_block@,
        ),
{
    let ghost parts = byte_strings(components@);
    let ghost below = witness_below(parts, signature@, preimage_bytes(preimage), script@);
    let ghost stack = below.push(control_block@);
    proof {
        assert(stack.drop_last() =~= below);
    }
    let mut witness = witness_new();
    proof {
        assert(stack.take(0) =~= Seq::<Seq<u8>>::empty());
    }
    let mut i: usize = 0;
    while i < components.len()
        invariant
            i <= components@.len(),
            parts == byte_strings(components@),
            below == witness_below(parts, signature@, preimage_bytes(preimage), script@),
            stack == below.push(control_block@),
            content_size(stack.drop_last()) <= u32::MAX,
            witness_items(witness).len() == i,
            witness_items(witness) == stack.take(i as int),
        decreases components.len() - i,
    {
        push_next(&mut witness, components[i].as_slice(), Ghost(stack));
        i += 1;
    }
    let last: u8 = signature[63];
    let tail: [u8; 1] = [last];
    let next: [u8; 1] = [last + 1];
    let head = vstd::slice::slice_subrange(signature.as_slice(), 0, 63);
    proof {
        assert(head@ =~= signature@.take(63));
        assert(tail@ =~= seq![last]);
        assert(next@ =~= seq![(last + 1) as u8]);
        assert(stack[i as int] == head@);
        assert(stack[i + 1] == tail@);
        assert(stack[i + 2] == next@);
    }
    push_next(&mut witness, head, Ghost(stack));
    push_next(&mut witness, tail.as_slice(), Ghost(stack));
    push_next(&mut witness, next.as_slice(), Ghost(stack));
    if let Some(bytes) = preimage {
        push_next(&mut witness, bytes.as_slice(), Ghost(stack));
    }
    push_next(&mut witness, script.as_slice(), Ghost(stack));
    push_next(&mut witness, control_block.as_slice(), Ghost(stack));
    proof {
        assert(stack.take(stack.len() as int) =~= stack);
    }
    witness
}

/// What of a witness is shown on the stack.
pub open spec fn witness_view(r: Result<bitcoin::Witness, HtlcError>) -> Result<
    Seq<Seq<u8>>,
    HtlcError,
> {
    match r {
        Ok(witness) => Ok(witness_items(witness)),
        Err(e) => Err(e),
    }
}

/// The outcome of building a witness, whatever the builder answers. The message is taken apart
/// for a signature of `sighash_type`, then the signature is made. `shown` says how the parts of
/// the message are shown on the stack. The first refusal is handed on.
pub open spec fn witness_outcome<B: SignatureBuilder>(
    builder: &B,
    request: WitnessRequest,
    sighash_type: TapSighashType,
    shown: spec_fn(Seq<Seq<u8>>) -> Seq<Seq<u8>>,
    control_block: Seq<u8>,
    r: Result<Seq<Seq<u8>>, HtlcError>,
) -> bool {
    exists|c: Result<Vec<Vec<u8>>, String>| #[trigger]
        request.components(builder, sighash_type, c) && after_parts(
            builder,
            request,
            c,
            shown,
            control_block,
            r,
        )
}

/// The outcome of building a witness once the builder has said what the parts of the message are.
pub open spec fn after_parts<B: SignatureBuilder>(
    builder: &B,
    request: WitnessRequest,
    c: Result<Vec<Vec<u8>>, String>,
    shown: spec_fn(Seq<Seq<u8>>) -> Seq<Seq<u8>>,
    control_block: Seq<u8>,
    r: Result<Seq<Seq<u8>>, HtlcError>,
) -> bool {
    match c {
        Err(words) => r == Err::<Seq<Seq<u8>>, HtlcError>(HtlcError::SignatureBuilding(words)),
        Ok(components) => exists|s: Result<[u8; 64], String>| #[trigger]
            request.signature(builder, s) && after_signature(
                request,
                components,
                s,
                shown,
                control_block,
                r,
            ),
    }
}

/// The outcome of building a witness once the builder has said what the signature is.
pub open spec fn after_signature(
    request: WitnessRequest,
    components: Vec<Vec<u8>>,
    s: Result<[u8; 64], String>,
    shown: spec_fn(Seq<Seq<u8>>) -> Seq<Seq<u8>>,
    control_block: Seq<u8>,
    r: Result<Seq<Seq<u8>>, HtlcError>,
) -> bool {
    match s {
        Err(words) => r == Err::<Seq<Seq<u8>>, HtlcError>(HtlcError::SignatureBuilding(words)),
        Ok(signature) => r == Ok::<Seq<Seq<u8>>, HtlcError>(
            witness_stack(
                shown(byte_strings(components@)),
                signature@,
                request.preimage,
                request.script,
                control_block,
            ),
        ),
    }
}

/// What a witness is built from: the transaction and the input that it is for, what that input
/// spends, the parts of the signature, and the script and the preimage that it shows.
pub struct WitnessRequest {
    pub tx: Transaction,
    pub input_index: usize,
    pub prevouts: Vec<TxOut>,
    pub leaf_hash: [u8; 32],
    pub signature_components: Vec<Vec<u8>>,
    pub script: Seq<u8>,
    pub preimage: Option<Seq<u8>>,
}

/// What a witness is built from, out of the arguments of the call that builds it.
pub open spec fn witness_request(
    tx: &Transaction,
    input_index: usize,
    prevouts: &Vec<TxOut>,
    leaf_hash: &[u8; 32],
    signature_components: &Vec<Vec<u8>>,
    script: Seq<u8>,
    preimage: Option<Seq<u8>>,
) -> WitnessRequest {
    WitnessRequest {
        tx: *tx,
        input_index,
        prevouts: *prevouts,
        leaf_hash: *leaf_hash,
        signature_components: *signature_components,
        script,
        preimage,
    }
}

impl WitnessRequest {
    /// Whether the builder may answer this when it is asked to take the message apart.
    pub open spec fn components<B: SignatureBuilder>(
        self,
        builder: &B,
        sighash_type: TapSighashType,
        c: Result<Vec<Vec<u8>>, String>,
    ) -> bool {
        call_ensures(
            B::get_sigmsg_components,
            (builder, &self.tx, self.input_index, &self.prevouts, &self.leaf_hash, sighash_type),
            c,
        )
    }

    /// Whether the builder may answer this when it is asked for the signature.
    pub open spec fn signature<B: SignatureBuilder>(
        self,
        builder: &B,
        s: Result<[u8; 64], String>,
    ) -> bool {
        call_ensures(
            B::compute_signature_from_components,
            (builder, &self.signature_components),
            s,
        )
    }

    /// Whether the builder may take the message apart.
    pub open spec fn taken_apart<B: SignatureBuilder>(
        self,
        builder: &B,
        sighash_type: TapSighashType,
    ) -> bool {
        exists|components: Vec<Vec<u8>>| #[trigger]
            self.components(builder, sighash_type, Ok(components))
    }

    /// Whether the builder may both take the message apart and make the signature.
    pub open spec fn answered<B: SignatureBuilder>(
        self,
        builder: &B,
        sighash_type: TapSighashType,
    ) -> bool {
        &&& self.taken_apart(builder, sighash_type)
        &&& exists|signature: [u8; 64]| #[trigger] self.signature(builder, Ok(signature))
    }

    /// Whether a witness can be laid from every answer of the builder: the message has at least
    /// `least` parts, the last byte of the signature can be counted up, and the stack below the
    /// control block is no larger than a witness can hold.
    pub open spec fn buildable<B: SignatureBuilder>(
        self,
        builder: &B,
        sighash_type: TapSighashType,
        least: nat,
        shown: spec_fn(Seq<Seq<u8>>) -> Seq<Seq<u8>>,
    ) -> bool {
        forall|components: Vec<Vec<u8>>| #[trigger]
            self.components(builder, sighash_type, Ok(components)) ==> {
                &&& components@.len() >= least
                &&& forall|signature: [u8; 64]| #[trigger]
                    self.signature(builder, Ok(signature)) ==> {
                        &&& signature@[63] < 255
                        &&& content_size(
                            witness_below(
                                shown(byte_strings(components@)),
                                signature@,
                                self.preimage,
                                self.script,
                            ),
                        ) <= u32::MAX
                    }
            }
    }
}

/// The parts of the message as they are.
pub open spec fn all_parts() -> spec_fn(Seq<Seq<u8>>) -> Seq<Seq<u8>> {
    |parts: Seq<Seq<u8>>| parts
}

/// The parts of the message with the value of the first output in place of the ninth.
pub open spec fn parts_with_value(value: u64) -> spec_fn(Seq<Seq<u8>>) -> Seq<Seq<u8>> {
    |parts: Seq<Seq<u8>>| parts.update(8, vstd::bytes::spec_u64_to_le_bytes(value))
}

impl HTLC {
    /// Builds the witness of a spend whose signature covers one input and one output, so that
    /// others can add inputs and outputs. The stack shows the parts of the signed message, the
    /// signature, the preimage if there is one, the script, and its control block.
    pub fn build_witness_single_anyonecanpay<B: SignatureBuilder>(
        &self,
        builder: &B,
        grinded_txn: &Transaction,
        input_index: usize,
        prevouts: &Vec<TxOut>,
        leaf_hash: &[u8; 32],
        redeem_script: &Vec<u8>,
        spend_info: &TaprootSpendInfo,
        signature_components: &Vec<Vec<u8>>,
        preimage: Option<&Vec<u8>>,
    ) -> (r: Result<bitcoin::Witness, HtlcError>)
        requires
            witness_request(
                grinded_txn,
                input_index,
                prevouts,
                leaf_hash,
                signature_components,
                redeem_script@,
                preimage_bytes(preimage),
            ).answered(builder, TapSighashType::SinglePlusAnyoneCanPay) ==> redeem_script@
                == spend_info@.first || redeem_script@ == spend_info@.second,
            witness_request(
                grinded_txn,
                input_index,
                prevouts,
                leaf_hash,
                signature_components,
                redeem_script@,
                preimage_bytes(preimage),
            ).buildable(builder, TapSighashType::SinglePlusAnyoneCanPay, 13, all_parts()),
        ensures
            witness_outcome(
                builder,
                witness_request(
                    grinded_txn,
                    input_index,
                    prevouts,
                    leaf_hash,
                    signature_components,
                    redeem_script@,
                    preimage_bytes(preimage),
                ),
                TapSighashType::SinglePlusAnyoneCanPay,
                all_parts(),
                spend_info@.control_block(redeem_script@)->0,
                witness_view(r),
            ),
    {
        let ghost request = witness_request(
            grinded_txn,
            input_index,
            prevouts,
            leaf_hash,
            signature_components,
            redeem_script@,
            preimage_bytes(preimage),
        );
        let ghost kind = TapSighashType::SinglePlusAnyoneCanPay;
        let components = match builder.get_sigmsg_components(
            grinded_txn,
            input_index,
            prevouts,
            leaf_hash,
            TapSighashType::SinglePlusAnyoneCanPay,
        ) {
            Ok(components) => components,
            Err(words) => {
                proof {
                    assert(request.components(builder, kind, Err(words)));
                }
                return Err(HtlcError::SignatureBuilding(words));
            },
        };
        proof {
            assert(request.components(builder, kind, Ok(components)));
        }
        let signature = match builder.compute_signature_from_components(signature_components) {
            Ok(signature) => signature,
            Err(words) => {
                proof {
                    assert(request.signature(builder, Err(words)));
                }
                return Err(HtlcError::SignatureBuilding(words));
            },
        };
        proof {
            assert(request.signature(builder, Ok(signature)));
        }
        let control_block = spend_info.control_block(redeem_script).unwrap();
        Ok(lay_witness(&components, &signature, preimage, redeem_script, &control_block))
    }

    /// Builds the witness of a spend whose signature covers the whole transaction. The stack
    /// shows the parts of the signed message, with the value of the first output in place of the
    /// hash of the outputs, then the signature, the preimage if there is one, the script, and its
    /// control block.
    pub fn build_witness_all<B: SignatureBuilder>(
        &self,
        builder: &B,
        grinded_txn: &Transaction,
        input_index: usize,
        prevouts: &Vec<TxOut>,
        leaf_hash: &[u8; 32],
        redeem_script: &Vec<u8>,
        spend_info: &TaprootSpendInfo,
        signature_components: &Vec<Vec<u8>>,
        preimage: Option<&Vec<u8>>,
    ) -> (r: Result<bitcoin::Witness, HtlcError>)
        requires
            witness_request(
                grinded_txn,
                input_index,
                prevouts,
                leaf_hash,
                signature_components,
                redeem_script@,
                preimage_bytes(preimage),
            ).taken_apart(builder, TapSighashType::Default) ==> grinded_txn.output@.len() > 0,
            witness_request(
                grinded_txn,
                input_index,
                prevouts,
                leaf_hash,
                signature_components,
                redeem_script@,
                preimage_bytes(preimage),
            ).answered(builder, TapSighashType::Default) ==> redeem_script@ == spend_info@.first
                || redeem_script@ == spend_info@.second,
            witness_request(
                grinded_txn,
                input_index,
                prevouts,
                leaf_hash,
                signature_components,
                redeem_script@,
                preimage_bytes(preimage),
            ).buildable(
                builder,
                TapSighashType::Default,
                9,
                parts_with_value(grinded_txn@.output[0].value),
            ),
        ensures
            witness_outcome(
                builder,
                witness_request(
                    grinded_txn,
                    input_index,
                    prevouts,
                    leaf_hash,
                    signature_components,
                    redeem_script@,
                    preimage_bytes(preimage),
                ),
                TapSighashType::Default,
                parts_with_value(grinded_txn@.output[0].value),
                spend_info@.control_block(redeem_script@)->0,
                witness_view(r),
            ),
    {
        let ghost request = witness_request(
            grinded_txn,
            input_index,
            prevouts,
            leaf_hash,
            signature_components,
            redeem_script@,
            preimage_bytes(preimage),
        );
        let ghost kind = TapSighashType::Default;
        let components = match builder.get_sigmsg_components(
            grinded_txn,
            input_index,
            prevouts,
            leaf_hash,
            TapSighashType::Default,
        ) {
            Ok(components) => components,
            Err(words) => {
                proof {
                    assert(request.components(builder, kind, Err(words)));
                }
                return Err(HtlcError::SignatureBuilding(words));
            },
        };
        proof {
            assert(request.components(builder, kind, Ok(components)));
        }
        let value: u64 = grinded_txn.output[0].value;
        let ghost parts = byte_strings(components@);
        let mut shown = components;
        shown.set(8, vstd::bytes::u64_to_le_bytes(value));
        proof {
            assert(byte_strings(shown@) =~= parts_with_value(value)(parts));
        }
        let signature = match builder.compute_signature_from_components(signature_components) {
            Ok(signature) => signature,
            Err(words) => {
                proof {
                    assert(request.signature(builder, Err(words)));
                }
                return Err(HtlcError::SignatureBuilding(words));
            },
        };
        proof {
            assert(request.signature(builder, Ok(signature)));
        }
        let control_block = spend_info.control_block(redeem_script).unwrap();
        Ok(lay_witness(&shown, &signature, preimage, redeem_script, &control_block))
    }
}

} // verus!
