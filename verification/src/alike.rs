//! What holds of contracts whose script writer and signature builder answer alike when they are
//! asked alike.

use vstd::prelude::*;

use crate::address::{Address, Network};
use crate::contract::{HtlcFunded, RedeemConfig, HTLC};
use crate::error::HtlcError;
use crate::laws::law_preimage_lies_below_the_script;
use crate::scripts::HtlcScripts;
use crate::sighash::TapSighashType;
use crate::signature_building::{ContractComponents, SignatureBuilder};
use crate::spending::{ground, SpendPlan};
use crate::transaction::{outputs_view, TransactionView};
use crate::witness_building::{after_parts, after_signature, byte_strings};
use crate::witness_building::{witness_outcome, WitnessRequest};

verus! {

/// Whether the script writer gives the same leaf whenever it is given the same terms.
pub open spec fn writes_alike<S: HtlcScripts>(scripts: &S) -> bool {
    &&& forall|address: Address, payment_hash: String, a: Vec<u8>, b: Vec<u8>|
        #[trigger] call_ensures(S::htlc_redeem_script, (scripts, &address, &payment_hash), a)
            && #[trigger] call_ensures(
            S::htlc_redeem_script,
            (scripts, &address, &payment_hash),
            b,
        ) ==> a@ == b@
    &&& forall|address: Address, lock: i64, a: Vec<u8>, b: Vec<u8>|
        #[trigger] call_ensures(S::htlc_refund_script, (scripts, &address, lock), a)
            && #[trigger] call_ensures(S::htlc_refund_script, (scripts, &address, lock), b)
            ==> a@ == b@
    &&& forall|address: Address, payment_hash: String, a: Vec<u8>, b: Vec<u8>|
        #[trigger] call_ensures(
            S::htlc_redeem_script_with_fee,
            (scripts, &address, &payment_hash),
            a,
        ) && #[trigger] call_ensures(
            S::htlc_redeem_script_with_fee,
            (scripts, &address, &payment_hash),
            b,
        ) ==> a@ == b@
    &&& forall|address: Address, lock: i64, a: Vec<u8>, b: Vec<u8>|
        #[trigger] call_ensures(S::htlc_refund_script_with_fee, (scripts, &address, lock), a)
            && #[trigger] call_ensures(
            S::htlc_refund_script_with_fee,
            (scripts, &address, lock),
            b,
        ) ==> a@ == b@
}

/// Whether two answers to a request to grind are alike: both refusals, or the same transaction and
/// the same parts of a signature.
pub open spec fn same_ground(
    a: Result<ContractComponents, String>,
    b: Result<ContractComponents, String>,
) -> bool {
    match (a, b) {
        (Ok(x), Ok(y)) => {
            &&& x.transaction@ == y.transaction@
            &&& byte_strings(x.signature_components@) == byte_strings(y.signature_components@)
        },
        (Err(_), Err(_)) => true,
        _ => false,
    }
}

/// Whether two answers on the parts of a message are alike.
pub open spec fn same_parts(
    a: Result<Vec<Vec<u8>>, String>,
    b: Result<Vec<Vec<u8>>, String>,
) -> bool {
    match (a, b) {
        (Ok(x), Ok(y)) => byte_strings(x@) == byte_strings(y@),
        (Err(_), Err(_)) => true,
        _ => false,
    }
}

/// Whether two answers on a signature are alike.
pub open spec fn same_signature(a: Result<[u8; 64], String>, b: Result<[u8; 64], String>) -> bool {
    match (a, b) {
        (Ok(x), Ok(y)) => x@ == y@,
        (Err(_), Err(_)) => true,
        _ => false,
    }
}

/// Whether the builder is asked the same for two witnesses, whatever script and preimage they show.
pub open spec fn same_question(a: WitnessRequest, b: WitnessRequest) -> bool {
    &&& a.tx@ == b.tx@
    &&& a.input_index == b.input_index
    &&& outputs_view(a.prevouts@) == outputs_view(b.prevouts@)
    &&& a.leaf_hash@ == b.leaf_hash@
    &&& byte_strings(a.signature_components@) == byte_strings(b.signature_components@)
}

/// Whether the builder gives like answers whenever it is asked the same.
pub open spec fn answers_alike<B: SignatureBuilder>(builder: &B) -> bool {
    &&& forall|
        p: SpendPlan,
        q: SpendPlan,
        a: Result<ContractComponents, String>,
        b: Result<ContractComponents, String>,
    |
        p@ == q@ && #[trigger] ground(builder, p, a) && #[trigger] ground(builder, q, b)
            ==> same_ground(a, b)
    &&& forall|
        p: WitnessRequest,
        q: WitnessRequest,
        kind: TapSighashType,
        a: Result<Vec<Vec<u8>>, String>,
        b: Result<Vec<Vec<u8>>, String>,
    |
        same_question(p, q) && #[trigger] p.components(builder, kind, a)
            && #[trigger] q.components(builder, kind, b) ==> same_parts(a, b)
    &&& forall|
        p: WitnessRequest,
        q: WitnessRequest,
        a: Result<[u8; 64], String>,
        b: Result<[u8; 64], String>,
    |
        same_question(p, q) && #[trigger] p.signature(builder, a) && #[trigger] q.signature(
            builder,
            b,
        ) ==> same_signature(a, b)
}

/// A contract's address locks coins to the same script on every network, with a fee and without
/// one.
pub proof fn law_address_has_one_script<S: HtlcScripts>(
    htlc: HTLC,
    scripts: &S,
    network: Network,
    other_network: Network,
    a: Address,
    b: Address,
)
    requires
        writes_alike(scripts),
        ({
            ||| htlc.address_outcome(scripts, network, Ok(a)) && htlc.address_outcome(
                scripts,
                other_network,
                Ok(b),
            )
            ||| htlc.address_with_fee_outcome(scripts, network, Ok(a))
                && htlc.address_with_fee_outcome(scripts, other_network, Ok(b))
        }),
    ensures
        a.script() == b.script(),
{
}

/// Noting how a contract is funded does not move its address, with a fee or without one.
pub proof fn law_funding_does_not_move_the_address<S: HtlcScripts>(
    htlc: HTLC,
    funded: Option<HtlcFunded>,
    scripts: &S,
    network: Network,
    a: Address,
    b: Address,
)
    requires
        writes_alike(scripts),
        ({
            let noted = HTLC { htlc_funded_utxo: funded, ..htlc };
            ||| htlc.address_outcome(scripts, network, Ok(a)) && noted.address_outcome(
                scripts,
                network,
                Ok(b),
            )
            ||| htlc.address_with_fee_outcome(scripts, network, Ok(a))
                && noted.address_with_fee_outcome(scripts, network, Ok(b))
        }),
    ensures
        a.network == b.network,
        a.script() == b.script(),
{
}

/// A witness that shows a preimage is the witness without one, with the preimage put in below the
/// script. This holds of every type of signature and however the parts of the message are shown.
pub proof fn law_preimage_is_put_into_the_witness<B: SignatureBuilder>(
    builder: &B,
    request: WitnessRequest,
    preimage: Seq<u8>,
    sighash_type: TapSighashType,
    shown: spec_fn(Seq<Seq<u8>>) -> Seq<Seq<u8>>,
    control_block: Seq<u8>,
    bare: Seq<Seq<u8>>,
    full: Seq<Seq<u8>>,
)
    requires
        answers_alike(builder),
        witness_outcome(
            builder,
            WitnessRequest { preimage: None, ..request },
            sighash_type,
            shown,
            control_block,
            Ok(bare),
        ),
        witness_outcome(
            builder,
            WitnessRequest { preimage: Some(preimage), ..request },
            sighash_type,
            shown,
            control_block,
            Ok(full),
        ),
    ensures
        bare.len() >= 5,
        full == bare.insert(bare.len() - 2, preimage),
        bare[bare.len() - 2] == request.script,
        bare.last() == control_block,
{
    let without = WitnessRequest { preimage: None, ..request };
    let c = choose|c: Result<Vec<Vec<u8>>, String>| #[trigger]
        without.components(builder, sighash_type, c) && after_parts(
            builder,
            without,
            c,
            shown,
            control_block,
            Ok(bare),
        );
    let s = choose|s: Result<[u8; 64], String>| #[trigger]
        without.signature(builder, s) && after_signature(
            without,
            c->Ok_0,
            s,
            shown,
            control_block,
            Ok(bare),
        );
    law_preimage_lies_below_the_script(
        shown(byte_strings(c->Ok_0@)),
        s->Ok_0@,
        preimage,
        request.script,
        control_block,
    );
}

/// The contract with something else known of the preimage.
pub open spec fn with_preimage(htlc: HTLC, preimage: Option<String>) -> HTLC {
    HTLC {
        redeem_config: Some(RedeemConfig { preimage, ..htlc.redeem_config->0 }),
        ..htlc
    }
}

/// A refund neither needs nor reveals the preimage: whatever is known of it, the same transaction
/// comes out.
pub proof fn law_refund_ignores_the_preimage<S: HtlcScripts, B: SignatureBuilder>(
    htlc: HTLC,
    preimage: Option<String>,
    scripts: &S,
    builder: &B,
    tx: TransactionView,
    r: Result<TransactionView, HtlcError>,
)
    requires
        writes_alike(scripts),
        answers_alike(builder),
        htlc.has_terms(),
        htlc.refund_outcome(scripts, builder, Ok(tx)),
        with_preimage(htlc, preimage).refund_outcome(scripts, builder, r),
    ensures
        r == Ok::<TransactionView, HtlcError>(tx),
{
}

/// A refund with a fee neither needs nor reveals the preimage: whatever is known of it, the same
/// transaction and message come out.
pub proof fn law_refund_with_fee_ignores_the_preimage<S: HtlcScripts, B: SignatureBuilder>(
    htlc: HTLC,
    preimage: Option<String>,
    scripts: &S,
    builder: &B,
    fee_amount: u64,
    spend: (TransactionView, Seq<u8>),
    r: Result<(TransactionView, Seq<u8>), HtlcError>,
)
    requires
        writes_alike(scripts),
        answers_alike(builder),
        htlc.has_terms(),
        htlc.refund_with_fee_outcome(scripts, builder, fee_amount, Ok(spend)),
        with_preimage(htlc, preimage).refund_with_fee_outcome(scripts, builder, fee_amount, r),
    ensures
        r == Ok::<(TransactionView, Seq<u8>), HtlcError>(spend),
{
}

} // verus!
