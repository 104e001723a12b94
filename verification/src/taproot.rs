//! The taproot output of a contract: a key that nobody can sign with, and two leaves.

use bitcoin::hashes::Hash as HashOutput;
use bitcoin::key::Secp256k1;
use bitcoin::taproot::{LeafVersion, TaprootBuilder};
use bitcoin::{Script, ScriptBuf, TapLeafHash, XOnlyPublicKey};
use secp256kfun::marker::{EvenY, NonZero, Public};
use secp256kfun::{Point, G};
use vstd::prelude::*;

use crate::error::HtlcError;

verus! {

/// The generator of the curve, uncompressed: a tag and two coordinates.
pub open spec fn generator_bytes() -> Seq<u8> {
    seq![
        0x04u8,
        0x79u8, 0xbeu8, 0x66u8, 0x7eu8, 0xf9u8, 0xdcu8, 0xbbu8, 0xacu8,
        0x55u8, 0xa0u8, 0x62u8, 0x95u8, 0xceu8, 0x87u8, 0x0bu8, 0x07u8,
        0x02u8, 0x9bu8, 0xfcu8, 0xdbu8, 0x2du8, 0xceu8, 0x28u8, 0xd9u8,
        0x59u8, 0xf2u8, 0x81u8, 0x5bu8, 0x16u8, 0xf8u8, 0x17u8, 0x98u8,
        0x48u8, 0x3au8, 0xdau8, 0x77u8, 0x26u8, 0xa3u8, 0xc4u8, 0x65u8,
        0x5du8, 0xa4u8, 0xfbu8, 0xfcu8, 0x0eu8, 0x11u8, 0x08u8, 0xa8u8,
        0xfdu8, 0x17u8, 0xb4u8, 0x48u8, 0xa6u8, 0x85u8, 0x54u8, 0x19u8,
        0x9cu8, 0x47u8, 0xd0u8, 0x8fu8, 0xfbu8, 0x10u8, 0xd4u8, 0xb8u8,
    ]
}

/// The SHA-256 hash of some bytes.
pub uninterp spec fn sha256_digest(data: Seq<u8>) -> Seq<u8>;

/// The number that the first `n` of some bytes write, the highest byte first.
pub open spec fn big_endian(bytes: Seq<u8>, n: nat) -> nat
    decreases n,
{
    if n == 0 {
        0
    } else {
        256 * big_endian(bytes, (n - 1) as nat) + bytes[n - 1] as nat
    }
}

/// The prime that coordinates are counted modulo.
pub open spec fn field_prime() -> int {
    0xfffffffffffffffffffffffffffffffffffffffffffffffffffffffefffffc2fint
}

/// Whether two numbers are the coordinates of a point of the curve.
pub open spec fn on_curve(x: int, y: int) -> bool {
    (y * y) % field_prime() == (x * x * x + 7) % field_prime()
}

/// Whether a point of the curve has this x coordinate.
pub open spec fn is_x_coordinate(bytes: Seq<u8>) -> bool {
    &&& big_endian(bytes, bytes.len()) < field_prime()
    &&& exists|y: int| #[trigger] on_curve(big_endian(bytes, bytes.len()) as int, y)
}

/// Whether some bytes are an x-only public key.
pub open spec fn is_x_only_key(bytes: Seq<u8>) -> bool {
    bytes.len() == 32 && is_x_coordinate(bytes)
}

/// The key that nobody can sign with: its x coordinate is the SHA-256 hash of the generator.
pub open spec fn nums_key_bytes() -> Seq<u8> {
    seq![
        0x50u8, 0x92u8, 0x9bu8, 0x74u8, 0xc1u8, 0xa0u8, 0x49u8, 0x54u8,
        0xb7u8, 0x8bu8, 0x4bu8, 0x60u8, 0x35u8, 0xe9u8, 0x7au8, 0x5eu8,
        0x07u8, 0x8au8, 0x5au8, 0x0fu8, 0x28u8, 0xecu8, 0x96u8, 0xd5u8,
        0x47u8, 0xbfu8, 0xeeu8, 0x9au8, 0xceu8, 0x80u8, 0x3au8, 0xc0u8,
    ]
}

/// The key that nobody can sign with is a key: there is a point with that x coordinate.
pub proof fn lemma_nums_key_is_a_key()
    ensures
        is_x_only_key(nums_key_bytes()),
{
    let bytes = nums_key_bytes();
    let x = 0x50929b74c1a04954b78b4b6035e97a5e078a5a0f28ec96d547bfee9ace803ac0int;
    let y = 0xce2c3979c68c6d91fb619c834e4a0bf5c9253d750e8996973cf3dceb0c5c732bint;
    assert(big_endian(bytes, 32) == x) by {
        reveal_with_fuel(big_endian, 33);
    }
    assert(on_curve(x, y)) by (nonlinear_arith)
        requires
            x == 0x50929b74c1a04954b78b4b6035e97a5e078a5a0f28ec96d547bfee9ace803ac0int,
            y == 0xce2c3979c68c6d91fb619c834e4a0bf5c9253d750e8996973cf3dceb0c5c732bint,
    ;
}

/// The hash of a script as a leaf of version `TapScript`.
pub uninterp spec fn script_leaf_hash(script: Seq<u8>) -> Seq<u8>;

/// The output key of a tree with two leaves at depth one, and the parity of its y coordinate.
pub uninterp spec fn two_leaf_output(
    internal_key: Seq<u8>,
    first: Seq<u8>,
    second: Seq<u8>,
) -> (Seq<u8>, u8);

/// Calls `to_bytes_uncompressed` of `secp256kfun::Point` on `secp256kfun::G`, the generator that
/// the standard for the curve fixes.
#[verifier::external_body]
fn generator_uncompressed() -> (r: [u8; 65])
    ensures
        r@ == generator_bytes(),
{
    G.to_bytes_uncompressed()
}

/// Calls `bitcoin::hashes::sha256::Hash::hash`. Its result depends on the bytes alone. Of the
/// generator it is the number that BIP 341 publishes as the x coordinate of its point `H`.
#[verifier::external_body]
fn sha256(data: &[u8]) -> (r: [u8; 32])
    ensures
        r@ == sha256_digest(data@),
        data@ == generator_bytes() ==> r@ == nums_key_bytes(),
{
    bitcoin::hashes::sha256::Hash::hash(data).to_byte_array()
}

/// Calls `secp256kfun::Point::from_xonly_bytes` and, on the point, `to_xonly_bytes`. The first
/// finds a point exactly where the bytes are an x coordinate: they write a number below the field
/// prime, and the equation of the curve has a solution for it. The second gives the bytes back.
#[verifier::external_body]
fn lift_x(bytes: [u8; 32]) -> (r: Option<[u8; 32]>)
    ensures
        r is Some <==> is_x_coordinate(bytes@),
        r matches Some(x) ==> x@ == bytes@,
{
    let point: Option<Point<EvenY, Public, NonZero>> = Point::from_xonly_bytes(bytes);
    point.map(|p| p.to_xonly_bytes())
}

/// Calls `XOnlyPublicKey::from_slice` of `bitcoin::secp256k1` and, on the key, `serialize`. The
/// first accepts exactly 32 bytes that are an x coordinate; the second writes them as they were
/// read.
#[verifier::external_body]
fn x_only_key(bytes: &[u8]) -> (r: Result<[u8; 32], bitcoin::secp256k1::Error>)
    ensures
        r is Ok <==> is_x_only_key(bytes@),
        r matches Ok(key) ==> key@ == bytes@,
{
    XOnlyPublicKey::from_slice(bytes).map(|key| key.serialize())
}

/// Calls `bitcoin::TapLeafHash::from_script` with the leaf version `TapScript`. Its result depends
/// on the script alone.
#[verifier::external_body]
pub(crate) fn tap_leaf_hash(script: &Vec<u8>) -> (r: [u8; 32])
    ensures
        r@ == script_leaf_hash(script@),
{
    TapLeafHash::from_script(Script::from_bytes(script), LeafVersion::TapScript).to_byte_array()
}

/// Calls `bitcoin::taproot::TaprootBuilder::finalize` after adding two leaves at depth one, which
/// always make up a complete tree, and reads the output key and its parity. They depend on the key
/// and the leaves alone. The parity is 0 or 1. The call panics where the hash of the key and the
/// tree is no tweak of the key, which the crate calls statistically extremely unlikely. No leaves
/// are known that lead there, and none are excluded.
#[verifier::external_body]
fn taproot_output(internal_key: &[u8; 32], first: &Vec<u8>, second: &Vec<u8>) -> (r: ([u8; 32], u8))
    requires
        is_x_only_key(internal_key@),
    ensures
        (r.0@, r.1) == two_leaf_output(internal_key@, first@, second@),
        r.1 <= 1,
{
    let key = XOnlyPublicKey::from_slice(internal_key).unwrap();
    let first = ScriptBuf::from(first.clone());
    let second = ScriptBuf::from(second.clone());
    let builder = TaprootBuilder::new().add_leaf(1, first).unwrap().add_leaf(1, second).unwrap();
    let info = builder.finalize(&Secp256k1::new(), key).unwrap();
    (info.output_key().serialize(), info.output_key_parity().to_u8())
}

/// The control block that opens a leaf: the leaf version with the parity of the output key, the
/// internal key, and the hash of the other leaf.
pub open spec fn leaf_control_block(internal_key: Seq<u8>, parity: u8, other: Seq<u8>) -> Seq<u8> {
    seq![(0xc0 + parity) as u8] + internal_key + script_leaf_hash(other)
}

/// What a contract's taproot output is made of.
#[verifier::ext_equal]
pub struct TapTree {
    pub internal_key: Seq<u8>,
    pub first: Seq<u8>,
    pub second: Seq<u8>,
}

impl TapTree {
    /// The key that the output shows.
    pub open spec fn output_key(self) -> Seq<u8> {
        two_leaf_output(self.internal_key, self.first, self.second).0
    }

    /// The control block that opens a leaf, if the script is one.
    pub open spec fn control_block(self, script: Seq<u8>) -> Option<Seq<u8>> {
        let parity = two_leaf_output(self.internal_key, self.first, self.second).1;
        if script == self.first {
            Some(leaf_control_block(self.internal_key, parity, self.second))
        } else if script == self.second {
            Some(leaf_control_block(self.internal_key, parity, self.first))
        } else {
            None
        }
    }
}

/// Calls `control_block` of `bitcoin::taproot::TaprootSpendInfo` on the tree of two leaves, and
/// `serialize` on its result. A leaf's control block holds the leaf version with the parity of
/// the output key, the internal key, and the hash of the other leaf; a script that is no leaf has
/// none. Building the tree again is subject to what `taproot_output` says.
#[verifier::external_body]
fn taproot_control_block(
    internal_key: &[u8; 32],
    first: &Vec<u8>,
    second: &Vec<u8>,
    script: &Vec<u8>,
) -> (r: Option<Vec<u8>>)
    requires
        is_x_only_key(internal_key@),
    ensures
        (match r {
            Some(block) => Some(block@),
            None => None,
        }) == (TapTree { internal_key: internal_key@, first: first@, second: second@ })
            .control_block(script@),
{
    let key = XOnlyPublicKey::from_slice(internal_key).unwrap();
    let first = ScriptBuf::from(first.clone());
    let second = ScriptBuf::from(second.clone());
    let builder = TaprootBuilder::new().add_leaf(1, first).unwrap().add_leaf(1, second).unwrap();
    let info = builder.finalize(&Secp256k1::new(), key).unwrap();
    let leaf = (ScriptBuf::from(script.clone()), LeafVersion::TapScript);
    info.control_block(&leaf).map(|block| block.serialize())
}

/// Makes the key that nobody can sign with, out of the generator. There is one, and it is always
/// the same.
pub fn nums_key() -> (r: Result<[u8; 32], HtlcError>)
    ensures
        r matches Ok(key) && key@ == nums_key_bytes() && key@ == sha256_digest(generator_bytes()),
{
    let hash = sha256(generator_uncompressed().as_slice());
    proof {
        lemma_nums_key_is_a_key();
    }
    match lift_x(hash) {
        None => Err(HtlcError::InvalidNumsPoint),
        Some(x) => match x_only_key(x.as_slice()) {
            Ok(key) => Ok(key),
            Err(_) => Err(HtlcError::InvalidPublicKey),
        },
    }
}

/// A taproot output with two leaves and the means to open each.
pub struct TaprootSpendInfo {
    internal_key: [u8; 32],
    output_key: [u8; 32],
    first: Vec<u8>,
    second: Vec<u8>,
}

impl View for TaprootSpendInfo {
    type V = TapTree;

    closed spec fn view(&self) -> TapTree {
        TapTree { internal_key: self.internal_key@, first: self.first@, second: self.second@ }
    }
}

/// The tree over the unspendable key with two given leaves.
pub open spec fn two_leaf_tree(first: Seq<u8>, second: Seq<u8>) -> TapTree {
    TapTree { internal_key: nums_key_bytes(), first, second }
}

impl TaprootSpendInfo {
    #[verifier::type_invariant]
    spec fn inv(self) -> bool {
        &&& is_x_only_key(self.internal_key@)
        &&& self.output_key@ == self@.output_key()
    }

    /// Puts two leaves at depth one of a tree over the key that nobody can sign with.
    pub fn with_leaves(first: &Vec<u8>, second: &Vec<u8>) -> (r: Result<TaprootSpendInfo, HtlcError>)
        ensures
            r matches Ok(info) && info@ == two_leaf_tree(first@, second@),
    {
        match nums_key() {
            Err(e) => Err(e),
            Ok(internal_key) => {
                proof {
                    lemma_nums_key_is_a_key();
                }
                let output = taproot_output(&internal_key, first, second);
                Ok(
                    TaprootSpendInfo {
                        internal_key,
                        output_key: output.0,
                        first: first.clone(),
                        second: second.clone(),
                    },
                )
            },
        }
    }

    /// The key that the output shows.
    pub fn output_key(&self) -> (r: &[u8; 32])
        ensures
            r@ == self@.output_key(),
    {
        proof {
            use_type_invariant(self);
        }
        &self.output_key
    }

    /// The control block that opens a leaf, if the script is one.
    pub fn control_block(&self, script: &Vec<u8>) -> (r: Option<Vec<u8>>)
        ensures
            match r {
                Some(block) => self@.control_block(script@) == Some(block@),
                None => self@.control_block(script@) is None,
            },
    {
        proof {
            use_type_invariant(self);
        }
        taproot_control_block(&self.internal_key, &self.first, &self.second, script)
    }
}

} // verus!
