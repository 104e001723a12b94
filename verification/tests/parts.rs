use bitcoin::absolute::LockTime;
use bitcoin::hashes::Hash as HashOutput;
use bitcoin::sighash::{Prevouts, SighashCache};
use bitcoin::transaction::Version;
use htlc::spending::{attach_witness, plan_spend, sequence_from_lock};
use htlc::witness_building::lay_witness;
use htlc::{
    add_fee_to_txn, compute_taproot_sighash, nums_key, raw_transaction_hex, Address, HtlcError,
    HtlcFunded, Network, OutPoint, Payload, TapSighashType, TaprootSpendInfo, Transaction, TxIn,
    TxOut,
};

const TYPES: [TapSighashType; 7] = [
    TapSighashType::Default,
    TapSighashType::All,
    TapSighashType::NoOutput,
    TapSighashType::Single,
    TapSighashType::AllPlusAnyoneCanPay,
    TapSighashType::NonePlusAnyoneCanPay,
    TapSighashType::SinglePlusAnyoneCanPay,
];

fn address(payload: Payload) -> Address {
    Address { network: Network::Signet, payload }
}

fn chain_script(payload: bitcoin::address::Payload) -> Vec<u8> {
    payload.script_pubkey().into_bytes()
}

fn transaction() -> Transaction {
    Transaction {
        version: 2,
        lock_time: 5,
        input: vec![
            TxIn {
                previous_output: OutPoint { txid: [1; 32], vout: 2 },
                script_sig: vec![],
                sequence: 0xffff_ffff,
                witness: bitcoin::Witness::new(),
            },
            TxIn {
                previous_output: OutPoint { txid: [3; 32], vout: 4 },
                script_sig: vec![0x51],
                sequence: 9,
                witness: bitcoin::Witness::new(),
            },
        ],
        output: vec![
            TxOut { value: 1_000, script_pubkey: vec![0x52] },
            TxOut { value: 2_000, script_pubkey: vec![0x53, 0x54] },
        ],
    }
}

fn prevouts() -> Vec<TxOut> {
    vec![
        TxOut { value: 1_500, script_pubkey: vec![0x55] },
        TxOut { value: 1_600, script_pubkey: vec![] },
    ]
}

fn chain_outputs(outputs: &[TxOut]) -> Vec<bitcoin::TxOut> {
    outputs
        .iter()
        .map(|o| bitcoin::TxOut {
            value: bitcoin::Amount::from_sat(o.value),
            script_pubkey: o.script_pubkey.clone().into(),
        })
        .collect()
}

fn chain_transaction(tx: &Transaction) -> bitcoin::Transaction {
    bitcoin::Transaction {
        version: Version(tx.version),
        lock_time: LockTime::from_consensus(tx.lock_time),
        input: tx
            .input
            .iter()
            .map(|i| bitcoin::TxIn {
                previous_output: bitcoin::OutPoint {
                    txid: bitcoin::Txid::from_byte_array(i.previous_output.txid),
                    vout: i.previous_output.vout,
                },
                script_sig: i.script_sig.clone().into(),
                sequence: bitcoin::Sequence(i.sequence),
                witness: i.witness.clone(),
            })
            .collect(),
        output: chain_outputs(&tx.output),
    }
}

fn sighash(tx: &Transaction, index: usize, spent: &Vec<TxOut>, kind: TapSighashType) -> [u8; 32] {
    compute_taproot_sighash(tx, index, spent, &[6; 32], kind).unwrap()
}

#[test]
fn nums_key_is_the_published_one() {
    assert_eq!(
        hex::encode(nums_key().unwrap()),
        "50929b74c1a04954b78b4b6035e97a5e078a5a0f28ec96d547bfee9ace803ac0"
    );
}

#[test]
fn script_pubkey_of_each_payload() {
    let mut p2pkh = vec![0x76, 0xa9, 0x14];
    p2pkh.extend([5; 20]);
    p2pkh.extend([0x88, 0xac]);
    assert_eq!(address(Payload::PubkeyHash([5; 20])).script_pubkey(), p2pkh);
    let mut p2sh = vec![0xa9, 0x14];
    p2sh.extend([6; 20]);
    p2sh.push(0x87);
    assert_eq!(address(Payload::ScriptHash([6; 20])).script_pubkey(), p2sh);
    let v0 = Payload::WitnessProgram { version: 0, program: vec![7; 32] };
    let mut script = vec![0x00, 0x20];
    script.extend([7; 32]);
    assert_eq!(address(v0).script_pubkey(), script);
    let v16 = Payload::WitnessProgram { version: 16, program: vec![8, 9] };
    assert_eq!(address(v16).script_pubkey(), vec![0x60, 0x02, 8, 9]);
}

#[test]
fn taproot_address_is_that_of_the_chain() {
    let key = bitcoin::XOnlyPublicKey::from_slice(&nums_key().unwrap()).unwrap();
    let tweaked = bitcoin::key::TweakedPublicKey::dangerous_assume_tweaked(key);
    let chain = bitcoin::Address::p2tr_tweaked(tweaked, bitcoin::Network::Signet);
    let ours = Address::p2tr_tweaked(&nums_key().unwrap(), Network::Signet);
    assert_eq!(ours.script_pubkey(), chain_script(chain.payload().clone()));
}

#[test]
fn control_blocks_open_leaves_only() {
    let first = vec![1u8, 2];
    let second = vec![3u8];
    let info = TaprootSpendInfo::with_leaves(&first, &second).unwrap();
    let block = info.control_block(&first).unwrap();
    assert_eq!(block.len(), 65);
    assert_eq!(block[0] & 0xfe, 0xc0);
    assert_eq!(block[1..33], nums_key().unwrap());
    let other = bitcoin::TapLeafHash::from_script(
        &bitcoin::ScriptBuf::from(second.clone()),
        bitcoin::taproot::LeafVersion::TapScript,
    );
    assert_eq!(block[33..], other.to_byte_array());
    assert!(info.control_block(&second).is_some());
    assert!(info.control_block(&vec![4]).is_none());
}

#[test]
fn equal_leaves_share_a_control_block() {
    let leaf = vec![0x51u8];
    let info = TaprootSpendInfo::with_leaves(&leaf, &leaf).unwrap();
    let block = info.control_block(&leaf).unwrap();
    let hash = bitcoin::TapLeafHash::from_script(
        &bitcoin::ScriptBuf::from(leaf),
        bitcoin::taproot::LeafVersion::TapScript,
    );
    assert_eq!(block[33..], hash.to_byte_array());
}

#[test]
fn added_fee_extends_the_transaction() {
    let mut tx = transaction();
    let back = address(Payload::ScriptHash([6; 20]));
    let grown = add_fee_to_txn(&mut tx, OutPoint { txid: [8; 32], vout: 1 }, 900, 300, back);
    assert_eq!(grown.unwrap().output.len(), 3);
    assert_eq!(tx.input.len(), 3);
    assert_eq!(tx.input[2].previous_output, OutPoint { txid: [8; 32], vout: 1 });
    assert_eq!(tx.input[2].sequence, 0xffff_ffff);
    assert!(tx.input[2].script_sig.is_empty());
    assert!(tx.input[2].witness.is_empty());
    assert_eq!(tx.output[2].value, 600);
    assert_eq!(tx.output[2].script_pubkey.len(), 23);
    assert_eq!(tx.output[0].value, 1_000);
    assert_eq!(tx.output[1].value, 2_000);
    assert_eq!(tx.input[1].sequence, 9);
}

#[test]
fn a_fee_that_takes_everything_is_refused() {
    for (value, fee) in [(300u64, 300u64), (299, 300), (0, 0)] {
        let mut tx = transaction();
        let back = address(Payload::ScriptHash([6; 20]));
        let refused = add_fee_to_txn(&mut tx, OutPoint { txid: [8; 32], vout: 1 }, value, fee, back);
        assert_eq!(
            refused.unwrap_err().message(),
            "Fee UTXO value is less than or equal to fee"
        );
        assert_eq!(raw_transaction_hex(&tx), raw_transaction_hex(&transaction()));
    }
    let mut tx = transaction();
    let back = address(Payload::ScriptHash([6; 20]));
    let added = add_fee_to_txn(&mut tx, OutPoint { txid: [8; 32], vout: 1 }, 301, 300, back);
    assert!(!matches!(added, Err(HtlcError::FeeNotCovered)));
    assert_eq!(tx.output[2].value, 1);
}

#[test]
fn sighash_is_that_of_the_chain() {
    let tx = transaction();
    let chain = chain_transaction(&tx);
    let spent = chain_outputs(&prevouts());
    for kind in TYPES {
        let chain_kind = bitcoin::TapSighashType::from_consensus_u8(kind.to_byte()).unwrap();
        for index in 0..2 {
            let expected = SighashCache::new(&chain)
                .taproot_script_spend_signature_hash(
                    index,
                    &Prevouts::All(&spent),
                    bitcoin::TapLeafHash::from_byte_array([6; 32]),
                    chain_kind,
                )
                .unwrap();
            assert_eq!(sighash(&tx, index, &prevouts(), kind), expected.to_byte_array());
        }
    }
}

#[test]
fn sighash_types_have_their_bytes() {
    let bytes: Vec<u8> = TYPES.iter().map(|t| t.to_byte()).collect();
    assert_eq!(bytes, vec![0x00, 0x01, 0x02, 0x03, 0x81, 0x82, 0x83]);
}

#[test]
fn added_fee_keeps_single_signatures() {
    let mut tx = transaction();
    let single = sighash(&tx, 1, &prevouts(), TapSighashType::SinglePlusAnyoneCanPay);
    let whole = sighash(&tx, 1, &prevouts(), TapSighashType::Default);
    let back = address(Payload::PubkeyHash([6; 20]));
    assert!(add_fee_to_txn(&mut tx, OutPoint { txid: [8; 32], vout: 1 }, 900, 300, back).is_ok());
    let mut spent = prevouts();
    spent.push(TxOut { value: 900, script_pubkey: vec![0x56] });
    assert_eq!(sighash(&tx, 1, &spent, TapSighashType::SinglePlusAnyoneCanPay), single);
    assert_ne!(sighash(&tx, 1, &spent, TapSighashType::Default), whole);
}

#[test]
fn witness_and_input_script_are_not_signed() {
    let mut witness = bitcoin::Witness::new();
    witness.push([1u8, 2, 3]);
    for kind in TYPES {
        let mut tx = attach_witness(transaction(), witness.clone());
        tx.input[0].script_sig = vec![0x57];
        assert_eq!(
            sighash(&tx, 0, &prevouts(), kind),
            sighash(&transaction(), 0, &prevouts(), kind)
        );
    }
}

#[test]
fn raw_hex_is_that_of_the_chain() {
    let tx = Transaction {
        version: 2,
        lock_time: 1,
        input: vec![],
        output: vec![],
    };
    assert_eq!(raw_transaction_hex(&tx), "020000000001000001000000");
    let mut witness = bitcoin::Witness::new();
    witness.push([1u8, 2, 3]);
    let tx = attach_witness(transaction(), witness);
    assert_eq!(
        raw_transaction_hex(&tx),
        bitcoin::consensus::encode::serialize_hex(&chain_transaction(&tx))
    );
}

#[test]
fn attached_witness_changes_nothing_else() {
    let mut witness = bitcoin::Witness::new();
    witness.push([1u8, 2, 3]);
    let mut tx = attach_witness(transaction(), witness.clone());
    assert_eq!(tx.input[0].witness, witness);
    tx.input[0].witness = bitcoin::Witness::new();
    assert_eq!(raw_transaction_hex(&tx), raw_transaction_hex(&transaction()));
}

#[test]
fn laid_witness_has_every_item() {
    let components = vec![vec![1u8], vec![], vec![2, 3]];
    let mut signature = [0xabu8; 64];
    signature[63] = 254;
    let script = vec![4u8; 300];
    let block = vec![5u8; 65];
    let bare = lay_witness(&components, &signature, None, &script, &block);
    let mut expected = vec![vec![1u8], vec![], vec![2, 3], vec![0xab; 63], vec![254], vec![255]];
    expected.push(script.clone());
    expected.push(block.clone());
    assert_eq!(bare.to_vec(), expected);
    let preimage = vec![9u8; 32];
    let shown = lay_witness(&components, &signature, Some(&preimage), &script, &block);
    expected.insert(6, preimage);
    assert_eq!(shown.to_vec(), expected);
}

#[test]
fn plan_moves_the_funded_output() {
    let funded = HtlcFunded { htlc_outpoint: OutPoint { txid: [1; 32], vout: 2 }, amount: 50 };
    let to = address(Payload::WitnessProgram { version: 1, program: vec![3; 32] });
    let plan = plan_spend(&funded, &[4; 32], [5; 32], sequence_from_lock(10), &to, 20);
    assert_eq!(plan.transaction.version, 2);
    assert_eq!(plan.transaction.lock_time, 0);
    assert_eq!(plan.transaction.input.len(), 1);
    assert_eq!(plan.transaction.input[0].previous_output, OutPoint { txid: [1; 32], vout: 2 });
    assert_eq!(plan.transaction.input[0].sequence, 10);
    assert_eq!(plan.transaction.output.len(), 1);
    assert_eq!(plan.transaction.output[0].value, 30);
    assert_eq!(plan.transaction.output[0].script_pubkey[..2], [0x51, 0x20]);
    assert_eq!(plan.transaction.output[0].script_pubkey[2..], [3; 32]);
    assert_eq!(plan.prevouts.len(), 1);
    assert_eq!(plan.prevouts[0].value, 50);
    assert_eq!(plan.prevouts[0].script_pubkey[2..], [4; 32]);
    assert_eq!(plan.leaf_hash, [5; 32]);
}
