//! The contract: its terms, its address, and the transactions that spend it.

use vstd::prelude::*;

use crate::address::{Address, Network};
use crate::error::HtlcError;
use crate::scripts::HtlcScripts;
use crate::signature_building::SignatureBuilder;
use crate::spending::{contract_output, plan_spend, sequence_from_lock, spend_transaction};
use crate::spending::{fee_spend_view, relative_height, transaction_view};
use crate::spending::{single_outcome, usable_for_single, usable_for_whole, whole_outcome};
use crate::spending::{FeeSpend, SpendPlanView, Unlock};
use crate::taproot::{script_leaf_hash, tap_leaf_hash, two_leaf_tree, TaprootSpendInfo};
use crate::transaction::{OutPoint, Transaction, TransactionView, SEQUENCE_MAX};

verus! {

/// The funded output of a contract. The amount is in satoshi.
#[derive(Debug)]
pub struct HtlcFunded {
    pub htlc_outpoint: OutPoint,
    pub amount: u64,
}

/// The sender's terms: where a refund goes, and after how many blocks.
#[derive(Debug)]
pub struct RefundConfig {
    pub refund_address: Address,
    pub refund_lock: i64,
}

/// The receiver's terms: the hash that is paid for, and its preimage once it is known, both as
/// hexadecimal text.
#[derive(Debug)]
pub struct RedeemConfig {
    pub payment_hash: String,
    pub preimage: Option<String>,
}

/// A hash time-locked contract, as far as its parts are known.
#[derive(Debug)]
pub struct HTLC {
    pub htlc_funded_utxo: Option<HtlcFunded>,
    pub redeem_address: Option<Address>,
    pub redeem_config: Option<RedeemConfig>,
    pub refund_config: Option<RefundConfig>,
}

impl HTLC {
    /// Every address that the contract knows is well formed.
    pub open spec fn wf(self) -> bool {
        &&& self.redeem_address matches Some(address) ==> address.wf()
        &&& self.refund_config matches Some(config) ==> config.refund_address.wf()
    }

    /// Whether the terms of both leaves are known.
    pub open spec fn has_terms(self) -> bool {
        &&& self.redeem_address is Some
        &&& self.redeem_config is Some
        &&& self.refund_config is Some
    }

    /// Makes a contract of which nothing is known.
    pub fn default() -> (r: HTLC)
        ensures
            r.htlc_funded_utxo is None,
            r.redeem_address is None,
            r.redeem_config is None,
            r.refund_config is None,
            r.wf(),
    {
        HTLC {
            htlc_funded_utxo: None,
            redeem_address: None,
            redeem_config: None,
            refund_config: None,
        }
    }

    /// Notes the output that funds the contract.
    pub fn set_funded_htlc(&mut self, outpoint: OutPoint, amount: u64)
        ensures
            *final(self) == (HTLC {
                htlc_funded_utxo: Some(HtlcFunded { htlc_outpoint: outpoint, amount }),
                ..*old(self)
            }),
            old(self).wf() ==> final(self).wf(),
    {
        self.htlc_funded_utxo = Some(HtlcFunded { htlc_outpoint: outpoint, amount });
    }

    /// Notes the receiver's address.
    pub fn set_redeem_address(&mut self, address: Address)
        ensures
            *final(self) == (HTLC { redeem_address: Some(address), ..*old(self) }),
            old(self).wf() && address.wf() ==> final(self).wf(),
    {
        self.redeem_address = Some(address);
    }

    /// Whether these are the leaves that the script writer gives for the terms.
    pub open spec fn leaves<S: HtlcScripts>(
        self,
        scripts: &S,
        redeem: Vec<u8>,
        refund: Vec<u8>,
    ) -> bool {
        let address = self.redeem_address->0;
        let terms = self.refund_config->0;
        &&& call_ensures(
            S::htlc_redeem_script,
            (scripts, &address, &self.redeem_config->0.payment_hash),
            redeem,
        )
        &&& call_ensures(
            S::htlc_refund_script,
            (scripts, &terms.refund_address, terms.refund_lock),
            refund,
        )
    }

    /// Whether these are the leaves that the script writer gives where the spender names the fee.
    pub open spec fn leaves_with_fee<S: HtlcScripts>(
        self,
        scripts: &S,
        redeem: Vec<u8>,
        refund: Vec<u8>,
    ) -> bool {
        let address = self.redeem_address->0;
        let terms = self.refund_config->0;
        &&& call_ensures(
            S::htlc_redeem_script_with_fee,
            (scripts, &address, &self.redeem_config->0.payment_hash),
            redeem,
        )
        &&& call_ensures(
            S::htlc_refund_script_with_fee,
            (scripts, &terms.refund_address, terms.refund_lock),
            refund,
        )
    }

    /// Has the two leaves written.
    fn write_leaves<S: HtlcScripts>(&self, scripts: &S) -> (r: (Vec<u8>, Vec<u8>))
        requires
            self.has_terms(),
        ensures
            self.leaves(scripts, r.0, r.1),
    {
        let address = self.redeem_address.as_ref().unwrap();
        let redeem = self.redeem_config.as_ref().unwrap();
        let refund = self.refund_config.as_ref().unwrap();
        (
            scripts.htlc_redeem_script(address, &redeem.payment_hash),
            scripts.htlc_refund_script(&refund.refund_address, refund.refund_lock),
        )
    }

    /// Has the two leaves written for a contract whose spender names the fee.
    fn write_leaves_with_fee<S: HtlcScripts>(&self, scripts: &S) -> (r: (Vec<u8>, Vec<u8>))
        requires
            self.has_terms(),
        ensures
            self.leaves_with_fee(scripts, r.0, r.1),
    {
        let address = self.redeem_address.as_ref().unwrap();
        let redeem = self.redeem_config.as_ref().unwrap();
        let refund = self.refund_config.as_ref().unwrap();
        (
            scripts.htlc_redeem_script_with_fee(address, &redeem.payment_hash),
            scripts.htlc_refund_script_with_fee(&refund.refund_address, refund.refund_lock),
        )
    }
}

impl HTLC {
    /// The taproot output of the contract: the receiver's leaf and the sender's leaf under a key
    /// that nobody can sign with.
    pub fn taproot_spend_info<S: HtlcScripts>(&self, scripts: &S) -> (r: Result<
        TaprootSpendInfo,
        HtlcError,
    >)
        requires
            self.has_terms(),
        ensures
            exists|redeem: Vec<u8>, refund: Vec<u8>| #[trigger]
                self.leaves(scripts, redeem, refund) && (r matches Ok(info) && info@
                    == two_leaf_tree(redeem@, refund@)),
    {
        let (redeem, refund) = self.write_leaves(scripts);
        TaprootSpendInfo::with_leaves(&redeem, &refund)
    }

    /// The taproot output of a contract whose spender names the fee.
    pub fn taproot_spend_info_with_fee<S: HtlcScripts>(&self, scripts: &S) -> (r: Result<
        TaprootSpendInfo,
        HtlcError,
    >)
        requires
            self.has_terms(),
        ensures
            exists|redeem: Vec<u8>, refund: Vec<u8>| #[trigger]
                self.leaves_with_fee(scripts, redeem, refund) && (r matches Ok(info) && info@
                    == two_leaf_tree(redeem@, refund@)),
    {
        let (redeem, refund) = self.write_leaves_with_fee(scripts);
        TaprootSpendInfo::with_leaves(&redeem, &refund)
    }

    /// The outcome of making the address that funds the contract,
    /// whatever the script writer answers: the taproot address of the tree of both leaves.
    pub open spec fn address_outcome<S: HtlcScripts>(
        self,
        scripts: &S,
        network: Network,
        r: Result<Address, HtlcError>,
    ) -> bool {
        exists|redeem: Vec<u8>, refund: Vec<u8>| #[trigger]
            self.leaves(scripts, redeem, refund) && (r matches Ok(address) && address.wf()
                && address.is_taproot(two_leaf_tree(redeem@, refund@).output_key(), network))
    }

    /// The address that funds the contract.
    pub fn address<S: HtlcScripts>(&self, scripts: &S, network: Network) -> (r: Result<
        Address,
        HtlcError,
    >)
        requires
            self.has_terms(),
        ensures
            self.address_outcome(scripts, network, r),
    {
        match self.taproot_spend_info(scripts) {
            Ok(info) => Ok(Address::p2tr_tweaked(info.output_key(), network)),
            Err(e) => Err(e),
        }
    }

    /// The outcome of making the address that funds a contract whose spender names the fee,
    /// whatever the script writer answers: the taproot address of the tree of both leaves.
    pub open spec fn address_with_fee_outcome<S: HtlcScripts>(
        self,
        scripts: &S,
        network: Network,
        r: Result<Address, HtlcError>,
    ) -> bool {
        exists|redeem: Vec<u8>, refund: Vec<u8>| #[trigger]
            self.leaves_with_fee(scripts, redeem, refund) && (r matches Ok(address) && address.wf()
                && address.is_taproot(two_leaf_tree(redeem@, refund@).output_key(), network))
    }

    /// The address that funds a contract whose spender names the fee.
    pub fn address_with_fee<S: HtlcScripts>(&self, scripts: &S, network: Network) -> (r: Result<
        Address,
        HtlcError,
    >)
        requires
            self.has_terms(),
        ensures
            self.address_with_fee_outcome(scripts, network, r),
    {
        match self.taproot_spend_info_with_fee(scripts) {
            Ok(info) => Ok(Address::p2tr_tweaked(info.output_key(), network)),
            Err(e) => Err(e),
        }
    }
}

impl HTLC {
    /// Whether all is known that a redeem transaction asks for.
    pub open spec fn can_redeem(self) -> bool {
        &&& self.htlc_funded_utxo is Some
        &&& self.redeem_address is Some
        &&& self.redeem_config is Some
    }

    /// Whether all is known that a refund transaction asks for.
    pub open spec fn can_refund(self) -> bool {
        &&& self.htlc_funded_utxo is Some
        &&& self.refund_config is Some
    }

    /// The transaction that pays the receiver, before it is signed.
    pub open spec fn redeem_transaction(self, fee: u64) -> TransactionView {
        spend_transaction(
            self.htlc_funded_utxo->0,
            SEQUENCE_MAX,
            self.redeem_address->0.script(),
            fee,
        )
    }

    /// The transaction that pays the sender back, before it is signed.
    pub open spec fn refund_transaction(self, fee: u64) -> TransactionView {
        spend_transaction(
            self.htlc_funded_utxo->0,
            relative_height(self.refund_config->0.refund_lock),
            self.refund_config->0.refund_address.script(),
            fee,
        )
    }

    /// The plan to spend an output that shows `output_key` through the leaf `script`.
    pub open spec fn plan(
        self,
        transaction: TransactionView,
        output_key: Seq<u8>,
        script: Seq<u8>,
    ) -> SpendPlanView {
        SpendPlanView {
            transaction,
            prevouts: seq![contract_output(self.htlc_funded_utxo->0, output_key)],
            leaf_hash: script_leaf_hash(script),
        }
    }

    /// What the receiver can show.
    pub open spec fn redeem_unlock(&self) -> Unlock<'_> {
        Unlock::Preimage(&self.redeem_config->0.preimage)
    }

    /// The outcome of redeeming, whatever the script writer and the builder answer.
    pub open spec fn redeem_outcome<S: HtlcScripts, B: SignatureBuilder>(
        self,
        scripts: &S,
        builder: &B,
        r: Result<TransactionView, HtlcError>,
    ) -> bool {
        if !self.can_redeem() {
            r == Err::<TransactionView, HtlcError>(HtlcError::MissingFields)
        } else {
            exists|redeem: Vec<u8>, refund: Vec<u8>| #[trigger]
                self.leaves(scripts, redeem, refund) && single_outcome(
                    builder,
                    self.plan(
                        self.redeem_transaction(0),
                        two_leaf_tree(redeem@, refund@).output_key(),
                        redeem@,
                    ),
                    two_leaf_tree(redeem@, refund@),
                    redeem@,
                    self.redeem_unlock(),
                    r,
                )
        }
    }

    /// Whether redeeming goes through for every answer of the script writer and the builder: the
    /// sender's terms are known too, and the answers can be used.
    pub open spec fn redeem_usable<S: HtlcScripts, B: SignatureBuilder>(
        self,
        scripts: &S,
        builder: &B,
    ) -> bool {
        self.can_redeem() ==> {
            &&& self.has_terms()
            &&& forall|redeem: Vec<u8>, refund: Vec<u8>| #[trigger]
                self.leaves(scripts, redeem, refund) ==> usable_for_single(
                    builder,
                    self.plan(
                        self.redeem_transaction(0),
                        two_leaf_tree(redeem@, refund@).output_key(),
                        redeem@,
                    ),
                    redeem@,
                    self.redeem_unlock(),
                )
        }
    }

    /// Makes the transaction that pays the whole amount to the receiver against the preimage.
    /// Its signature covers one input and one output, so that others can add a fee.
    pub fn create_redeem_tx<S: HtlcScripts, B: SignatureBuilder>(
        &self,
        scripts: &S,
        builder: &B,
    ) -> (r: Result<Transaction, HtlcError>)
        requires
            self.wf(),
            self.redeem_usable(scripts, builder),
        ensures
            self.redeem_outcome(scripts, builder, transaction_view(r)),
    {
        if self.htlc_funded_utxo.is_none() || self.redeem_address.is_none()
            || self.redeem_config.is_none() {
            return Err(HtlcError::MissingFields);
        }
        let htlc_funded = self.htlc_funded_utxo.as_ref().unwrap();
        let redeem_address = self.redeem_address.as_ref().unwrap();
        let redeem_config = self.redeem_config.as_ref().unwrap();
        let (redeem_script, refund_script) = self.write_leaves(scripts);
        let spend_info = match TaprootSpendInfo::with_leaves(&redeem_script, &refund_script) {
            Ok(spend_info) => spend_info,
            Err(e) => {
                return Err(e);
            },
        };
        let plan = plan_spend(
            htlc_funded,
            spend_info.output_key(),
            tap_leaf_hash(&redeem_script),
            SEQUENCE_MAX,
            redeem_address,
            0,
        );
        self.spend_single(
            builder,
            plan,
            &spend_info,
            &redeem_script,
            Unlock::Preimage(&redeem_config.preimage),
        )
    }

    /// The outcome of refunding, whatever the script writer and the builder answer.
    pub open spec fn refund_outcome<S: HtlcScripts, B: SignatureBuilder>(
        self,
        scripts: &S,
        builder: &B,
        r: Result<TransactionView, HtlcError>,
    ) -> bool {
        if !self.can_refund() {
            r == Err::<TransactionView, HtlcError>(HtlcError::MissingFields)
        } else {
            exists|redeem: Vec<u8>, refund: Vec<u8>| #[trigger]
                self.leaves(scripts, redeem, refund) && single_outcome(
                    builder,
                    self.plan(
                        self.refund_transaction(0),
                        two_leaf_tree(redeem@, refund@).output_key(),
                        refund@,
                    ),
                    two_leaf_tree(redeem@, refund@),
                    refund@,
                    Unlock::Timeout,
                    r,
                )
        }
    }

    /// Whether refunding goes through for every answer of the script writer and the builder: the
    /// receiver's terms are known too, and the answers can be used.
    pub open spec fn refund_usable<S: HtlcScripts, B: SignatureBuilder>(
        self,
        scripts: &S,
        builder: &B,
    ) -> bool {
        self.can_refund() ==> {
            &&& self.has_terms()
            &&& forall|redeem: Vec<u8>, refund: Vec<u8>| #[trigger]
                self.leaves(scripts, redeem, refund) ==> usable_for_single(
                    builder,
                    self.plan(
                        self.refund_transaction(0),
                        two_leaf_tree(redeem@, refund@).output_key(),
                        refund@,
                    ),
                    refund@,
                    Unlock::Timeout,
                )
        }
    }

    /// Makes the transaction that pays the whole amount back to the sender after the timeout. Its
    /// signature covers one input and one output, so that others can add a fee.
    pub fn create_refund_tx<S: HtlcScripts, B: SignatureBuilder>(
        &self,
        scripts: &S,
        builder: &B,
    ) -> (r: Result<Transaction, HtlcError>)
        requires
            self.wf(),
            self.refund_usable(scripts, builder),
        ensures
            self.refund_outcome(scripts, builder, transaction_view(r)),
    {
        if self.htlc_funded_utxo.is_none() || self.refund_config.is_none() {
            return Err(HtlcError::MissingFields);
        }
        let htlc_funded = self.htlc_funded_utxo.as_ref().unwrap();
        let refund_config = self.refund_config.as_ref().unwrap();
        let (redeem_script, refund_script) = self.write_leaves(scripts);
        let spend_info = match TaprootSpendInfo::with_leaves(&redeem_script, &refund_script) {
            Ok(spend_info) => spend_info,
            Err(e) => {
                return Err(e);
            },
        };
        let plan = plan_spend(
            htlc_funded,
            spend_info.output_key(),
            tap_leaf_hash(&refund_script),
            sequence_from_lock(refund_config.refund_lock),
            &refund_config.refund_address,
            0,
        );
        self.spend_single(builder, plan, &spend_info, &refund_script, Unlock::Timeout)
    }

    /// The outcome of redeeming with a fee, whatever the script writer and the builder answer.
    pub open spec fn redeem_with_fee_outcome<S: HtlcScripts, B: SignatureBuilder>(
        self,
        scripts: &S,
        builder: &B,
        fee_amount: u64,
        r: Result<(TransactionView, Seq<u8>), HtlcError>,
    ) -> bool {
        if !self.can_redeem() {
            r == Err::<(TransactionView, Seq<u8>), HtlcError>(HtlcError::MissingFields)
        } else {
            exists|redeem: Vec<u8>, refund: Vec<u8>| #[trigger]
                self.leaves_with_fee(scripts, redeem, refund) && whole_outcome(
                    builder,
                    self.plan(
                        self.redeem_transaction(fee_amount),
                        two_leaf_tree(redeem@, refund@).output_key(),
                        redeem@,
                    ),
                    two_leaf_tree(redeem@, refund@),
                    redeem@,
                    self.redeem_unlock(),
                    r,
                )
        }
    }

    /// Whether redeeming with a fee goes through for every answer of the script writer and the
    /// builder: the sender's terms are known too, the amount covers the fee, and the answers can
    /// be used.
    pub open spec fn redeem_with_fee_usable<S: HtlcScripts, B: SignatureBuilder>(
        self,
        scripts: &S,
        builder: &B,
        fee_amount: u64,
    ) -> bool {
        self.can_redeem() ==> {
            &&& self.has_terms()
            &&& fee_amount <= self.htlc_funded_utxo->0.amount
            &&& forall|redeem: Vec<u8>, refund: Vec<u8>| #[trigger]
                self.leaves_with_fee(scripts, redeem, refund) ==> usable_for_whole(
                    builder,
                    self.plan(
                        self.redeem_transaction(fee_amount),
                        two_leaf_tree(redeem@, refund@).output_key(),
                        redeem@,
                    ),
                    redeem@,
                    self.redeem_unlock(),
                )
        }
    }

    /// Makes the transaction that pays the amount, less a fee, to the receiver against the
    /// preimage. Its signature covers the whole transaction.
    pub fn create_redeem_tx_with_fee<S: HtlcScripts, B: SignatureBuilder>(
        &self,
        scripts: &S,
        builder: &B,
        fee_amount: u64,
    ) -> (r: Result<FeeSpend, HtlcError>)
        requires
            self.wf(),
            self.redeem_with_fee_usable(scripts, builder, fee_amount),
        ensures
            self.redeem_with_fee_outcome(scripts, builder, fee_amount, fee_spend_view(r)),
    {
        if self.htlc_funded_utxo.is_none() || self.redeem_address.is_none()
            || self.redeem_config.is_none() {
            return Err(HtlcError::MissingFields);
        }
        let htlc_funded = self.htlc_funded_utxo.as_ref().unwrap();
        let redeem_address = self.redeem_address.as_ref().unwrap();
        let redeem_config = self.redeem_config.as_ref().unwrap();
        let (redeem_script, refund_script) = self.write_leaves_with_fee(scripts);
        let spend_info = match TaprootSpendInfo::with_leaves(&redeem_script, &refund_script) {
            Ok(spend_info) => spend_info,
            Err(e) => {
                return Err(e);
            },
        };
        let plan = plan_spend(
            htlc_funded,
            spend_info.output_key(),
            tap_leaf_hash(&redeem_script),
            SEQUENCE_MAX,
            redeem_address,
            fee_amount,
        );
        self.spend_whole(
            builder,
            plan,
            &spend_info,
            &redeem_script,
            Unlock::Preimage(&redeem_config.preimage),
        )
    }

    /// The outcome of refunding with a fee, whatever the script writer and the builder answer.
    pub open spec fn refund_with_fee_outcome<S: HtlcScripts, B: SignatureBuilder>(
        self,
        scripts: &S,
        builder: &B,
        fee_amount: u64,
        r: Result<(TransactionView, Seq<u8>), HtlcError>,
    ) -> bool {
        if !self.can_refund() {
            r == Err::<(TransactionView, Seq<u8>), HtlcError>(HtlcError::MissingFields)
        } else {
            exists|redeem: Vec<u8>, refund: Vec<u8>| #[trigger]
                self.leaves_with_fee(scripts, redeem, refund) && whole_outcome(
                    builder,
                    self.plan(
                        self.refund_transaction(fee_amount),
                        two_leaf_tree(redeem@, refund@).output_key(),
                        refund@,
                    ),
                    two_leaf_tree(redeem@, refund@),
                    refund@,
                    Unlock::Timeout,
                    r,
                )
        }
    }

    /// Whether refunding with a fee goes through for every answer of the script writer and the
    /// builder: the receiver's terms are known too, the amount covers the fee, and the answers can
    /// be used.
    pub open spec fn refund_with_fee_usable<S: HtlcScripts, B: SignatureBuilder>(
        self,
        scripts: &S,
        builder: &B,
        fee_amount: u64,
    ) -> bool {
        self.can_refund() ==> {
            &&& self.has_terms()
            &&& fee_amount <= self.htlc_funded_utxo->0.amount
            &&& forall|redeem: Vec<u8>, refund: Vec<u8>| #[trigger]
                self.leaves_with_fee(scripts, redeem, refund) ==> usable_for_whole(
                    builder,
                    self.plan(
                        self.refund_transaction(fee_amount),
                        two_leaf_tree(redeem@, refund@).output_key(),
                        refund@,
                    ),
                    refund@,
                    Unlock::Timeout,
                )
        }
    }

    /// Makes the transaction that pays the amount, less a fee, back to the sender after the
    /// timeout. Its signature covers the whole transaction.
    pub fn create_refund_tx_with_fee<S: HtlcScripts, B: SignatureBuilder>(
        &self,
        scripts: &S,
        builder: &B,
        fee_amount: u64,
    ) -> (r: Result<FeeSpend, HtlcError>)
        requires
            self.wf(),
            self.refund_with_fee_usable(scripts, builder, fee_amount),
        ensures
            self.refund_with_fee_outcome(scripts, builder, fee_amount, fee_spend_view(r)),
    {
        if self.htlc_funded_utxo.is_none() || self.refund_config.is_none() {
            return Err(HtlcError::MissingFields);
        }
        let htlc_funded = self.htlc_funded_utxo.as_ref().unwrap();
        let refund_config = self.refund_config.as_ref().unwrap();
        let (redeem_script, refund_script) = self.write_leaves_with_fee(scripts);
        let spend_info = match TaprootSpendInfo::with_leaves(&redeem_script, &refund_script) {
            Ok(spend_info) => spend_info,
            Err(e) => {
                return Err(e);
            },
        };
        let plan = plan_spend(
            htlc_funded,
            spend_info.output_key(),
            tap_leaf_hash(&refund_script),
            sequence_from_lock(refund_config.refund_lock),
            &refund_config.refund_address,
            fee_amount,
        );
        self.spend_whole(builder, plan, &spend_info, &refund_script, Unlock::Timeout)
    }
}

} // verus!
