//! Addresses and the scripts that lock coins to them.

use bitcoin::hashes::Hash as HashOutput;
use vstd::prelude::*;

verus! {

/// The chain that an address belongs to.
#[derive(Clone, Copy, Debug, PartialEq, Eq)]
pub enum Network {
    Bitcoin,
    Testnet,
    Signet,
    Regtest,
}

/// What an address pays to.
#[derive(Debug, PartialEq, Eq)]
pub enum Payload {
    /// The hash of a public key.
    PubkeyHash([u8; 20]),
    /// The hash of a script.
    ScriptHash([u8; 20]),
    /// A segregated witness program.
    WitnessProgram { version: u8, program: Vec<u8> },
}

/// An address: what is paid to, and on which chain.
#[derive(Debug, PartialEq, Eq)]
pub struct Address {
    pub network: Network,
    pub payload: Payload,
}

/// Whether a witness version and program may stand together in an address.
pub open spec fn is_witness_program(version: u8, program: Seq<u8>) -> bool {
    &&& version <= 16
    &&& 2 <= program.len() <= 40
    &&& version == 0 ==> program.len() == 20 || program.len() == 32
}

/// The script `OP_DUP OP_HASH160 <hash> OP_EQUALVERIFY OP_CHECKSIG`.
pub open spec fn p2pkh_script(hash: Seq<u8>) -> Seq<u8> {
    seq![0x76u8, 0xa9u8, 0x14u8] + hash + seq![0x88u8, 0xacu8]
}

/// The script `OP_HASH160 <hash> OP_EQUAL`.
pub open spec fn p2sh_script(hash: Seq<u8>) -> Seq<u8> {
    seq![0xa9u8, 0x14u8] + hash + seq![0x87u8]
}

/// The script that pushes a witness version and then the program.
pub open spec fn witness_program_script(version: u8, program: Seq<u8>) -> Seq<u8> {
    let opcode: u8 = if version == 0 {
        0u8
    } else {
        (0x50 + version) as u8
    };
    seq![opcode, program.len() as u8] + program
}

impl Address {
    /// An address holds a well-formed witness program, where it holds one at all.
    pub open spec fn wf(self) -> bool {
        match self.payload {
            Payload::WitnessProgram { version, program } => is_witness_program(version, program@),
            _ => true,
        }
    }

    /// The script that locks coins to the address. The chain plays no part in it.
    pub open spec fn script(self) -> Seq<u8> {
        match self.payload {
            Payload::PubkeyHash(hash) => p2pkh_script(hash@),
            Payload::ScriptHash(hash) => p2sh_script(hash@),
            Payload::WitnessProgram { version, program } => witness_program_script(
                version,
                program@,
            ),
        }
    }

    /// Whether this is the taproot address of an output key.
    pub open spec fn is_taproot(self, output_key: Seq<u8>, network: Network) -> bool {
        &&& self.network == network
        &&& self.payload matches Payload::WitnessProgram { version, program } && version == 1
            && program@ == output_key
    }

    /// Makes the script that locks coins to the address.
    pub fn script_pubkey(&self) -> (r: Vec<u8>)
        requires
            self.wf(),
        ensures
            r@ == self.script(),
    {
        match &self.payload {
            Payload::PubkeyHash(hash) => p2pkh_script_pubkey(hash),
            Payload::ScriptHash(hash) => p2sh_script_pubkey(hash),
            Payload::WitnessProgram { version, program } => witness_program_script_pubkey(
                *version,
                program,
            ),
        }
    }

    /// The taproot address of an output key: a witness program of version 1 that is the key.
    pub fn p2tr_tweaked(output_key: &[u8; 32], network: Network) -> (r: Address)
        ensures
            r.is_taproot(output_key@, network),
            r.wf(),
            r.script() == witness_program_script(1, output_key@),
    {
        let mut program: Vec<u8> = Vec::new();
        program.extend_from_slice(output_key.as_slice());
        assert(program@ =~= output_key@);
        Address { network, payload: Payload::WitnessProgram { version: 1, program } }
    }
}

/// Calls `bitcoin::address::Payload::script_pubkey` on a public key hash. It yields the
/// pay-to-public-key-hash script of that hash.
#[verifier::external_body]
fn p2pkh_script_pubkey(hash: &[u8; 20]) -> (r: Vec<u8>)
    ensures
        r@ == p2pkh_script(hash@),
{
    let hash = bitcoin::PubkeyHash::from_byte_array(*hash);
    bitcoin::address::Payload::PubkeyHash(hash).script_pubkey().into_bytes()
}

/// Calls `bitcoin::address::Payload::script_pubkey` on a script hash. It yields the
/// pay-to-script-hash script of that hash.
#[verifier::external_body]
fn p2sh_script_pubkey(hash: &[u8; 20]) -> (r: Vec<u8>)
    ensures
        r@ == p2sh_script(hash@),
{
    let hash = bitcoin::ScriptHash::from_byte_array(*hash);
    bitcoin::address::Payload::ScriptHash(hash).script_pubkey().into_bytes()
}

/// Calls `bitcoin::address::Payload::script_pubkey` on a witness program. It yields the opcode of
/// the version and a push of the program. The constructors `WitnessVersion::try_from` and
/// `WitnessProgram::new` accept every version and program that `is_witness_program` admits.
#[verifier::external_body]
fn witness_program_script_pubkey(version: u8, program: &Vec<u8>) -> (r: Vec<u8>)
    requires
        is_witness_program(version, program@),
    ensures
        r@ == witness_program_script(version, program@),
{
    let version = bitcoin::WitnessVersion::try_from(version).unwrap();
    let program = bitcoin::WitnessProgram::new(version, program.clone()).unwrap();
    bitcoin::address::Payload::WitnessProgram(program).script_pubkey().into_bytes()
}

} // verus!
