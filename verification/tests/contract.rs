use bitcoin::hashes::Hash as HashOutput;
use bitcoin::key::Secp256k1;
use bitcoin::taproot::{ControlBlock, LeafVersion, TaprootBuilder};
use bitcoin::{ScriptBuf, TapLeafHash, XOnlyPublicKey};
use htlc::{
    add_fee_to_txn, compute_taproot_sighash, raw_transaction_hex, Address, ContractComponents, GrindField, HtlcError, HtlcScripts,
    Network, OutPoint, Payload, RedeemConfig, RefundConfig, SignatureBuilder, TapSighashType,
    Transaction, TxOut, HTLC,
};
use std::cell::RefCell;

const REDEEM_LEAF: [u8; 3] = [0x51, 0xac, 0x01];
const REFUND_LEAF: [u8; 2] = [0x52, 0xac];
const FEE_REDEEM_LEAF: [u8; 1] = [0x53];
const FEE_REFUND_LEAF: [u8; 1] = [0x54];

/// Writes fixed scripts, and notes the terms that it was given.
struct FixedScripts {
    calls: RefCell<Vec<String>>,
}

impl FixedScripts {
    fn new() -> FixedScripts {
        FixedScripts { calls: RefCell::new(Vec::new()) }
    }
}

impl HtlcScripts for FixedScripts {
    fn htlc_redeem_script(&self, address: &Address, payment_hash: &String) -> Vec<u8> {
        self.calls.borrow_mut().push(format!("redeem {:?} {}", address.network, payment_hash));
        REDEEM_LEAF.to_vec()
    }
    fn htlc_refund_script(&self, address: &Address, lock: i64) -> Vec<u8> {
        self.calls.borrow_mut().push(format!("refund {:?} {}", address.network, lock));
        REFUND_LEAF.to_vec()
    }
    fn htlc_redeem_script_with_fee(&self, address: &Address, payment_hash: &String) -> Vec<u8> {
        self.calls.borrow_mut().push(format!("fee redeem {:?} {}", address.network, payment_hash));
        FEE_REDEEM_LEAF.to_vec()
    }
    fn htlc_refund_script_with_fee(&self, address: &Address, lock: i64) -> Vec<u8> {
        self.calls.borrow_mut().push(format!("fee refund {:?} {}", address.network, lock));
        FEE_REFUND_LEAF.to_vec()
    }
}

/// What was handed over to be ground.
#[derive(Debug, PartialEq)]
struct Handed {
    version: i32,
    lock_time: u32,
    outpoint: OutPoint,
    sequence: u32,
    witness_len: usize,
    output_value: u64,
    output_script: Vec<u8>,
    spent_value: u64,
    spent_script: Vec<u8>,
    leaf_hash: [u8; 32],
}

/// Sets the lock time to 77 and answers with fixed parts, unless it is told to refuse.
struct FixedBuilder {
    refuse: &'static str,
    handed: RefCell<Option<Handed>>,
    kinds: RefCell<Vec<TapSighashType>>,
}

impl FixedBuilder {
    fn new(refuse: &'static str) -> FixedBuilder {
        FixedBuilder { refuse, handed: RefCell::new(None), kinds: RefCell::new(Vec::new()) }
    }
}

fn parts() -> Vec<Vec<u8>> {
    (0u8..14).map(|i| vec![i, i + 100]).collect()
}

fn signature() -> [u8; 64] {
    let mut bytes = [0u8; 64];
    for (i, b) in bytes.iter_mut().enumerate() {
        *b = i as u8;
    }
    bytes
}

impl SignatureBuilder for FixedBuilder {
    fn grind_transaction(
        &self,
        initial_tx: Transaction,
        grind_field: GrindField,
        prevouts: &Vec<TxOut>,
        leaf_hash: &[u8; 32],
    ) -> Result<ContractComponents, String> {
        if self.refuse == "grind" {
            return Err("no lock time fits".to_string());
        }
        assert_eq!(grind_field, GrindField::LockTime);
        assert_eq!(initial_tx.input.len(), 1);
        assert_eq!(initial_tx.output.len(), 1);
        assert_eq!(prevouts.len(), 1);
        assert!(initial_tx.input[0].script_sig.is_empty());
        *self.handed.borrow_mut() = Some(Handed {
            version: initial_tx.version,
            lock_time: initial_tx.lock_time,
            outpoint: initial_tx.input[0].previous_output,
            sequence: initial_tx.input[0].sequence,
            witness_len: initial_tx.input[0].witness.len(),
            output_value: initial_tx.output[0].value,
            output_script: initial_tx.output[0].script_pubkey.clone(),
            spent_value: prevouts[0].value,
            spent_script: prevouts[0].script_pubkey.clone(),
            leaf_hash: *leaf_hash,
        });
        let transaction = Transaction { lock_time: 77, ..initial_tx };
        Ok(ContractComponents { transaction, signature_components: vec![vec![9, 9]] })
    }

    fn get_sigmsg_components(
        &self,
        tx: &Transaction,
        input_index: usize,
        _prevouts: &Vec<TxOut>,
        _leaf_hash: &[u8; 32],
        sighash_type: TapSighashType,
    ) -> Result<Vec<Vec<u8>>, String> {
        if self.refuse == "components" {
            return Err("no parts".to_string());
        }
        assert_eq!(tx.lock_time, 77);
        assert_eq!(input_index, 0);
        self.kinds.borrow_mut().push(sighash_type);
        Ok(parts())
    }

    fn compute_signature_from_components(
        &self,
        signature_components: &Vec<Vec<u8>>,
    ) -> Result<[u8; 64], String> {
        if self.refuse == "signature" {
            return Err("no signature".to_string());
        }
        assert_eq!(signature_components, &vec![vec![9u8, 9u8]]);
        Ok(signature())
    }
}

fn outpoint() -> OutPoint {
    OutPoint { txid: [7; 32], vout: 3 }
}

fn redeem_address() -> Address {
    Address {
        network: Network::Signet,
        payload: Payload::WitnessProgram { version: 0, program: vec![0x11; 20] },
    }
}

fn refund_address() -> Address {
    Address { network: Network::Regtest, payload: Payload::PubkeyHash([0x22; 20]) }
}

fn redeem_script_pubkey() -> Vec<u8> {
    let mut script = vec![0x00, 0x14];
    script.extend(vec![0x11; 20]);
    script
}

fn refund_script_pubkey() -> Vec<u8> {
    let mut script = vec![0x76, 0xa9, 0x14];
    script.extend(vec![0x22; 20]);
    script.extend(vec![0x88, 0xac]);
    script
}

fn contract(preimage: Option<&str>) -> HTLC {
    let mut htlc = HTLC::default();
    htlc.set_funded_htlc(outpoint(), 100_000);
    htlc.set_redeem_address(redeem_address());
    htlc.redeem_config = Some(RedeemConfig {
        payment_hash: "abcd".to_string(),
        preimage: preimage.map(|p| p.to_string()),
    });
    htlc.refund_config =
        Some(RefundConfig { refund_address: refund_address(), refund_lock: 144 });
    htlc
}

/// The point whose x coordinate is the hash of the generator, as BIP 341 gives it.
const NUMS: &str = "50929b74c1a04954b78b4b6035e97a5e078a5a0f28ec96d547bfee9ace803ac0";

fn output_key(first: &[u8], second: &[u8]) -> [u8; 32] {
    let key = XOnlyPublicKey::from_slice(&hex::decode(NUMS).unwrap()).unwrap();
    let builder = TaprootBuilder::new()
        .add_leaf(1, ScriptBuf::from(first.to_vec()))
        .unwrap()
        .add_leaf(1, ScriptBuf::from(second.to_vec()))
        .unwrap();
    builder.finalize(&Secp256k1::new(), key).unwrap().output_key().serialize()
}

fn taproot_script(key: [u8; 32]) -> Vec<u8> {
    let mut script = vec![0x51, 0x20];
    script.extend(key);
    script
}

fn leaf_hash(script: &[u8]) -> [u8; 32] {
    TapLeafHash::from_script(&ScriptBuf::from(script.to_vec()), LeafVersion::TapScript)
        .to_byte_array()
}

/// Whether the last item of a stack proves that the item below it is a leaf of an output key.
fn opens(stack: &[Vec<u8>], key: [u8; 32]) -> bool {
    let block = ControlBlock::decode(stack.last().unwrap()).unwrap();
    let script = ScriptBuf::from(stack[stack.len() - 2].clone());
    let key = XOnlyPublicKey::from_slice(&key).unwrap();
    block.verify_taproot_commitment(&Secp256k1::new(), key, &script)
}

fn signed_part() -> Vec<Vec<u8>> {
    vec![signature()[0..63].to_vec(), vec![63], vec![64]]
}

#[test]
fn default_knows_nothing() {
    let htlc = HTLC::default();
    assert!(htlc.htlc_funded_utxo.is_none());
    assert!(htlc.redeem_address.is_none());
    assert!(htlc.redeem_config.is_none());
    assert!(htlc.refund_config.is_none());
}

#[test]
fn setters_change_one_field() {
    let mut htlc = HTLC::default();
    htlc.set_funded_htlc(outpoint(), 5);
    assert_eq!(htlc.htlc_funded_utxo.as_ref().unwrap().htlc_outpoint, outpoint());
    assert_eq!(htlc.htlc_funded_utxo.as_ref().unwrap().amount, 5);
    assert!(htlc.redeem_address.is_none());
    htlc.set_redeem_address(redeem_address());
    assert_eq!(htlc.redeem_address, Some(redeem_address()));
    assert_eq!(htlc.htlc_funded_utxo.as_ref().unwrap().amount, 5);
    assert!(htlc.redeem_config.is_none());
    assert!(htlc.refund_config.is_none());
}

#[test]
fn scripts_get_the_terms() {
    let scripts = FixedScripts::new();
    contract(None).taproot_spend_info(&scripts).unwrap();
    contract(None).taproot_spend_info_with_fee(&scripts).unwrap();
    assert_eq!(
        *scripts.calls.borrow(),
        vec![
            "redeem Signet abcd",
            "refund Regtest 144",
            "fee redeem Signet abcd",
            "fee refund Regtest 144",
        ]
    );
}

#[test]
fn spend_info_shows_the_output_key() {
    let info = contract(None).taproot_spend_info(&FixedScripts::new()).unwrap();
    assert_eq!(*info.output_key(), output_key(&REDEEM_LEAF, &REFUND_LEAF));
    let info = contract(None).taproot_spend_info_with_fee(&FixedScripts::new()).unwrap();
    assert_eq!(*info.output_key(), output_key(&FEE_REDEEM_LEAF, &FEE_REFUND_LEAF));
}

#[test]
fn address_is_the_taproot_address() {
    let key = output_key(&REDEEM_LEAF, &REFUND_LEAF);
    let address = contract(None).address(&FixedScripts::new(), Network::Bitcoin).unwrap();
    assert_eq!(address.network, Network::Bitcoin);
    assert_eq!(
        address.payload,
        Payload::WitnessProgram { version: 1, program: key.to_vec() }
    );
    assert_eq!(address.script_pubkey(), taproot_script(key));
    let fee_key = output_key(&FEE_REDEEM_LEAF, &FEE_REFUND_LEAF);
    let address = contract(None).address_with_fee(&FixedScripts::new(), Network::Testnet).unwrap();
    assert_eq!(address.network, Network::Testnet);
    assert_eq!(address.script_pubkey(), taproot_script(fee_key));
}

#[test]
fn redeem_pays_the_receiver() {
    let builder = FixedBuilder::new("");
    let tx = contract(Some("C0ffee")).create_redeem_tx(&FixedScripts::new(), &builder).unwrap();
    let key = output_key(&REDEEM_LEAF, &REFUND_LEAF);
    assert_eq!(
        *builder.handed.borrow(),
        Some(Handed {
            version: 2,
            lock_time: 0,
            outpoint: outpoint(),
            sequence: 0xffff_ffff,
            witness_len: 0,
            output_value: 100_000,
            output_script: redeem_script_pubkey(),
            spent_value: 100_000,
            spent_script: taproot_script(key),
            leaf_hash: leaf_hash(&REDEEM_LEAF),
        })
    );
    assert_eq!(*builder.kinds.borrow(), vec![TapSighashType::SinglePlusAnyoneCanPay]);
    assert_eq!(tx.version, 2);
    assert_eq!(tx.lock_time, 77);
    assert_eq!(tx.input.len(), 1);
    assert_eq!(tx.output.len(), 1);
    assert_eq!(tx.output[0].value, 100_000);
    assert_eq!(tx.output[0].script_pubkey, redeem_script_pubkey());
    let stack = tx.input[0].witness.to_vec();
    let mut expected = parts();
    expected.extend(signed_part());
    expected.push(vec![0xc0, 0xff, 0xee]);
    expected.push(REDEEM_LEAF.to_vec());
    assert_eq!(stack[..stack.len() - 1], expected[..]);
    assert!(opens(&stack, key));
}

#[test]
fn refund_pays_the_sender_back() {
    let builder = FixedBuilder::new("");
    let tx = contract(None).create_refund_tx(&FixedScripts::new(), &builder).unwrap();
    let key = output_key(&REDEEM_LEAF, &REFUND_LEAF);
    assert_eq!(
        *builder.handed.borrow(),
        Some(Handed {
            version: 2,
            lock_time: 0,
            outpoint: outpoint(),
            sequence: 144,
            witness_len: 0,
            output_value: 100_000,
            output_script: refund_script_pubkey(),
            spent_value: 100_000,
            spent_script: taproot_script(key),
            leaf_hash: leaf_hash(&REFUND_LEAF),
        })
    );
    assert_eq!(*builder.kinds.borrow(), vec![TapSighashType::SinglePlusAnyoneCanPay]);
    let stack = tx.input[0].witness.to_vec();
    let mut expected = parts();
    expected.extend(signed_part());
    expected.push(REFUND_LEAF.to_vec());
    assert_eq!(stack[..stack.len() - 1], expected[..]);
    assert!(opens(&stack, key));
}

#[test]
fn redeem_with_fee_pays_less() {
    let builder = FixedBuilder::new("");
    let scripts = FixedScripts::new();
    let spend = contract(Some("00")).create_redeem_tx_with_fee(&scripts, &builder, 258).unwrap();
    let key = output_key(&FEE_REDEEM_LEAF, &FEE_REFUND_LEAF);
    assert_eq!(
        *builder.handed.borrow(),
        Some(Handed {
            version: 2,
            lock_time: 0,
            outpoint: outpoint(),
            sequence: 0xffff_ffff,
            witness_len: 0,
            output_value: 99_742,
            output_script: redeem_script_pubkey(),
            spent_value: 100_000,
            spent_script: taproot_script(key),
            leaf_hash: leaf_hash(&FEE_REDEEM_LEAF),
        })
    );
    assert_eq!(*builder.kinds.borrow(), vec![TapSighashType::Default]);
    let stack = spend.transaction.input[0].witness.to_vec();
    let mut expected = parts();
    expected[8] = vec![0x9e, 0x85, 0x01, 0, 0, 0, 0, 0];
    expected.extend(signed_part());
    expected.push(vec![0]);
    expected.push(FEE_REDEEM_LEAF.to_vec());
    assert_eq!(stack[..stack.len() - 1], expected[..]);
    assert!(opens(&stack, key));
    let spent = vec![TxOut { value: 100_000, script_pubkey: taproot_script(key) }];
    let again = compute_taproot_sighash(
        &spend.transaction,
        0,
        &spent,
        &leaf_hash(&FEE_REDEEM_LEAF),
        TapSighashType::Default,
    );
    assert_eq!(spend.message, again.unwrap());
}

#[test]
fn refund_with_fee_spends_the_fee_output() {
    let builder = FixedBuilder::new("");
    let scripts = FixedScripts::new();
    let spend = contract(None).create_refund_tx_with_fee(&scripts, &builder, 1_000).unwrap();
    let plain_key = output_key(&REDEEM_LEAF, &REFUND_LEAF);
    let fee_key = output_key(&FEE_REDEEM_LEAF, &FEE_REFUND_LEAF);
    assert_eq!(
        *builder.handed.borrow(),
        Some(Handed {
            version: 2,
            lock_time: 0,
            outpoint: outpoint(),
            sequence: 144,
            witness_len: 0,
            output_value: 99_000,
            output_script: refund_script_pubkey(),
            spent_value: 100_000,
            spent_script: taproot_script(fee_key),
            leaf_hash: leaf_hash(&FEE_REFUND_LEAF),
        })
    );
    let stack = spend.transaction.input[0].witness.to_vec();
    let mut expected = parts();
    expected[8] = 99_000u64.to_le_bytes().to_vec();
    expected.extend(signed_part());
    expected.push(FEE_REFUND_LEAF.to_vec());
    assert_eq!(stack[..stack.len() - 1], expected[..]);
    assert!(opens(&stack, fee_key));
    assert!(!opens(&stack, plain_key));
    let spent = vec![TxOut { value: 100_000, script_pubkey: taproot_script(fee_key) }];
    let again = compute_taproot_sighash(
        &spend.transaction,
        0,
        &spent,
        &leaf_hash(&FEE_REFUND_LEAF),
        TapSighashType::Default,
    );
    assert_eq!(spend.message, again.unwrap());
}

#[test]
fn paid_value_and_fee_make_up_the_amount() {
    let scripts = FixedScripts::new();
    for fee in [0u64, 1, 500, 99_999, 100_000] {
        let builder = FixedBuilder::new("");
        let spend = contract(Some("00")).create_redeem_tx_with_fee(&scripts, &builder, fee);
        let paid: u64 = spend.unwrap().transaction.output.iter().map(|o| o.value).sum();
        assert_eq!(paid + fee, 100_000);
    }
}

#[test]
fn spent_output_is_at_the_contracts_address() {
    let scripts = FixedScripts::new();
    let builder = FixedBuilder::new("");
    let htlc = contract(Some("00"));
    htlc.create_redeem_tx(&scripts, &builder).unwrap();
    for network in [Network::Bitcoin, Network::Testnet, Network::Signet, Network::Regtest] {
        let address = htlc.address(&scripts, network).unwrap();
        let handed = builder.handed.borrow();
        assert_eq!(handed.as_ref().unwrap().spent_script, address.script_pubkey());
    }
}

#[test]
fn funding_does_not_move_the_address() {
    let scripts = FixedScripts::new();
    let mut htlc = contract(None);
    htlc.htlc_funded_utxo = None;
    let before = htlc.address(&scripts, Network::Regtest).unwrap();
    let before_with_fee = htlc.address_with_fee(&scripts, Network::Regtest).unwrap();
    htlc.set_funded_htlc(outpoint(), 1);
    assert_eq!(htlc.address(&scripts, Network::Regtest).unwrap(), before);
    assert_eq!(htlc.address_with_fee(&scripts, Network::Regtest).unwrap(), before_with_fee);
    assert_ne!(before, before_with_fee);
}

#[test]
fn an_added_fee_is_the_whole_fee() {
    let scripts = FixedScripts::new();
    let builder = FixedBuilder::new("");
    let htlc = contract(Some("00"));
    for mut tx in [
        htlc.create_redeem_tx(&scripts, &builder).unwrap(),
        htlc.create_refund_tx(&scripts, &builder).unwrap(),
    ] {
        assert_eq!(tx.output.iter().map(|o| o.value).sum::<u64>(), 100_000);
        let point = OutPoint { txid: [9; 32], vout: 0 };
        assert!(add_fee_to_txn(&mut tx, point, 5_000, 700, refund_address()).is_ok());
        assert_eq!(100_000 + 5_000 - tx.output.iter().map(|o| o.value).sum::<u64>(), 700);
    }
}

#[test]
fn a_refund_ignores_the_preimage() {
    let scripts = FixedScripts::new();
    let builder = FixedBuilder::new("");
    let expected = contract(None).create_refund_tx(&scripts, &builder).unwrap();
    let fee_spend = contract(None).create_refund_tx_with_fee(&scripts, &builder, 9).unwrap();
    for preimage in ["c0ffee", "", "zz"] {
        let htlc = contract(Some(preimage));
        let tx = htlc.create_refund_tx(&scripts, &builder).unwrap();
        assert_eq!(raw_transaction_hex(&tx), raw_transaction_hex(&expected));
        let spend = htlc.create_refund_tx_with_fee(&scripts, &builder, 9).unwrap();
        assert_eq!(
            raw_transaction_hex(&spend.transaction),
            raw_transaction_hex(&fee_spend.transaction)
        );
        assert_eq!(spend.message, fee_spend.message);
    }
}

#[test]
fn a_preimage_is_put_in_below_the_script() {
    let builder = FixedBuilder::new("");
    let htlc = contract(None);
    let info = htlc.taproot_spend_info(&FixedScripts::new()).unwrap();
    let tx = Transaction {
        version: 2,
        lock_time: 77,
        input: vec![],
        output: vec![TxOut { value: 1, script_pubkey: vec![] }],
    };
    let parts = vec![vec![9u8, 9]];
    let leaf = REDEEM_LEAF.to_vec();
    for preimage in [vec![], vec![1u8, 2, 3]] {
        let single = |shown| {
            htlc.build_witness_single_anyonecanpay(
                &builder, &tx, 0, &vec![], &[0; 32], &leaf, &info, &parts, shown,
            )
            .unwrap()
            .to_vec()
        };
        let whole = |shown| {
            htlc.build_witness_all(
                &builder, &tx, 0, &vec![], &[0; 32], &leaf, &info, &parts, shown,
            )
            .unwrap()
            .to_vec()
        };
        for (mut bare, full) in [
            (single(None), single(Some(&preimage))),
            (whole(None), whole(Some(&preimage))),
        ] {
            bare.insert(bare.len() - 2, preimage.clone());
            assert_eq!(bare, full);
        }
    }
}

#[test]
fn written_bytes_are_read_back() {
    let scripts = FixedScripts::new();
    let builder = FixedBuilder::new("");
    let tx = contract(Some("00ff10")).create_redeem_tx(&scripts, &builder).unwrap();
    let text = raw_transaction_hex(&tx);
    let again = contract(Some(&text)).create_redeem_tx(&scripts, &builder).unwrap();
    let stack = again.input[0].witness.to_vec();
    assert_eq!(stack[17], hex::decode(&text).unwrap());
    assert_ne!(stack[17], text.into_bytes());
}

#[test]
fn the_whole_amount_can_be_the_fee() {
    let scripts = FixedScripts::new();
    let builder = FixedBuilder::new("");
    let spend = contract(None).create_refund_tx_with_fee(&scripts, &builder, 100_000).unwrap();
    assert_eq!(spend.transaction.output[0].value, 0);
}

#[test]
fn refund_lock_keeps_sixteen_bits() {
    for (lock, sequence) in [(65_535i64, 65_535u32), (65_536, 0), (65_537, 1), (-1, 65_535)] {
        let mut htlc = contract(None);
        htlc.refund_config.as_mut().unwrap().refund_lock = lock;
        let builder = FixedBuilder::new("");
        htlc.create_refund_tx(&FixedScripts::new(), &builder).unwrap();
        assert_eq!(builder.handed.borrow().as_ref().unwrap().sequence, sequence);
        assert_eq!(bitcoin::Sequence::from_height(lock as u16).to_consensus_u32(), sequence);
    }
}

#[test]
fn missing_fields_are_refused() {
    let scripts = FixedScripts::new();
    let builder = FixedBuilder::new("");
    let mut htlc = contract(Some("00"));
    htlc.htlc_funded_utxo = None;
    assert!(matches!(htlc.create_redeem_tx(&scripts, &builder), Err(HtlcError::MissingFields)));
    assert!(matches!(htlc.create_refund_tx(&scripts, &builder), Err(HtlcError::MissingFields)));
    let mut htlc = contract(Some("00"));
    htlc.redeem_address = None;
    assert!(matches!(htlc.create_redeem_tx(&scripts, &builder), Err(HtlcError::MissingFields)));
    assert!(matches!(
        htlc.create_redeem_tx_with_fee(&scripts, &builder, 1),
        Err(HtlcError::MissingFields)
    ));
    let mut htlc = contract(Some("00"));
    htlc.redeem_config = None;
    assert!(matches!(htlc.create_redeem_tx(&scripts, &builder), Err(HtlcError::MissingFields)));
    let mut htlc = contract(Some("00"));
    htlc.refund_config = None;
    assert!(matches!(htlc.create_refund_tx(&scripts, &builder), Err(HtlcError::MissingFields)));
    let refused = htlc.create_refund_tx_with_fee(&scripts, &builder, 1);
    assert_eq!(
        refused.unwrap_err().message(),
        "Missing required fields for redeem transaction"
    );
    assert!(scripts.calls.borrow().is_empty());
    assert!(builder.handed.borrow().is_none());
}

#[test]
fn a_missing_preimage_is_found_after_grinding() {
    let scripts = FixedScripts::new();
    let builder = FixedBuilder::new("");
    let refused = contract(None).create_redeem_tx(&scripts, &builder);
    assert_eq!(refused.unwrap_err().message(), "Preimage is required");
    assert!(builder.handed.borrow().is_some());
    assert!(builder.kinds.borrow().is_empty());
    let refused = contract(None).create_redeem_tx_with_fee(&scripts, &builder, 1);
    assert!(matches!(refused, Err(HtlcError::PreimageRequired)));
    let builder = FixedBuilder::new("grind");
    let refused = contract(None).create_redeem_tx(&scripts, &builder);
    assert!(matches!(refused, Err(HtlcError::SignatureBuilding(_))));
}

#[test]
fn refusals_of_the_builder_are_handed_on() {
    let scripts = FixedScripts::new();
    for (refuse, words) in [
        ("grind", "no lock time fits"),
        ("components", "no parts"),
        ("signature", "no signature"),
    ] {
        let builder = FixedBuilder::new(refuse);
        let htlc = contract(Some("00"));
        assert_eq!(htlc.create_redeem_tx(&scripts, &builder).unwrap_err().message(), words);
        assert_eq!(htlc.create_refund_tx(&scripts, &builder).unwrap_err().message(), words);
        let refused = htlc.create_redeem_tx_with_fee(&scripts, &builder, 1);
        assert_eq!(refused.unwrap_err().message(), words);
        let refused = htlc.create_refund_tx_with_fee(&scripts, &builder, 1);
        assert_eq!(refused.unwrap_err().message(), words);
    }
}

#[test]
fn a_refusal_to_grind_comes_before_an_unreadable_preimage() {
    let scripts = FixedScripts::new();
    let builder = FixedBuilder::new("grind");
    let htlc = contract(Some("zz"));
    let refused = htlc.create_redeem_tx(&scripts, &builder);
    assert_eq!(refused.unwrap_err().message(), "no lock time fits");
    let refused = htlc.create_redeem_tx_with_fee(&scripts, &builder, 1);
    assert_eq!(refused.unwrap_err().message(), "no lock time fits");
}

#[test]
fn a_refusal_to_take_apart_comes_before_outputs_and_leaves() {
    let builder = FixedBuilder::new("components");
    let htlc = contract(None);
    let info = htlc.taproot_spend_info(&FixedScripts::new()).unwrap();
    let tx = Transaction { version: 2, lock_time: 77, input: vec![], output: vec![] };
    let no_leaf = vec![0x6au8];
    let none: Vec<Vec<u8>> = vec![];
    let refused = htlc
        .build_witness_all(&builder, &tx, 0, &vec![], &[0; 32], &no_leaf, &info, &none, None);
    assert_eq!(refused.unwrap_err().message(), "no parts");
    let refused = htlc.build_witness_single_anyonecanpay(
        &builder, &tx, 0, &vec![], &[0; 32], &no_leaf, &info, &none, None,
    );
    assert_eq!(refused.unwrap_err().message(), "no parts");
}

#[test]
fn redeem_and_refund_show_the_same_but_for_preimage_and_leaf() {
    let scripts = FixedScripts::new();
    let builder = FixedBuilder::new("");
    let htlc = contract(Some("abcdef"));
    let redeem = htlc.create_redeem_tx(&scripts, &builder).unwrap().input[0].witness.to_vec();
    let refund = htlc.create_refund_tx(&scripts, &builder).unwrap().input[0].witness.to_vec();
    assert_eq!(redeem.len(), refund.len() + 1);
    assert_eq!(redeem[..17], refund[..17]);
    assert_eq!(redeem[17], vec![0xab, 0xcd, 0xef]);
    let mut whole = redeem[14].clone();
    whole.extend(&redeem[15]);
    assert_eq!(whole, signature().to_vec());
    assert_eq!(redeem[16][0], redeem[15][0] + 1);
}

#[test]
fn other_errors_have_words() {
    assert_eq!(
        HtlcError::InvalidNumsPoint.message(),
        "G_X hash should be a valid x-only point"
    );
    assert_eq!(
        HtlcError::InvalidPublicKey.message(),
        bitcoin::secp256k1::Error::InvalidPublicKey.to_string()
    );
    assert_eq!(
        HtlcError::InvalidMessage.message(),
        bitcoin::secp256k1::Error::InvalidMessage.to_string()
    );
}
