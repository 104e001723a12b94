//! The witness of a transaction input: a stack of byte strings.

use vstd::prelude::*;

verus! {

/// A `bitcoin::Witness`, seen only through the functions below.
#[verifier::external_type_specification]
#[verifier::external_body]
pub struct ExWitness(bitcoin::Witness);

/// The items of a witness, the bottom of the stack first.
pub uninterp spec fn witness_items(witness: bitcoin::Witness) -> Seq<Seq<u8>>;

/// How many bytes a length takes in front of the item that it counts.
pub open spec fn length_prefix(len: nat) -> nat {
    if len < 0xfd {
        1
    } else if len <= 0xffff {
        3
    } else if len <= 0xffff_ffff {
        5
    } else {
        9
    }
}

/// How many bytes the items take, each behind its length.
pub open spec fn content_size(items: Seq<Seq<u8>>) -> nat
    decreases items.len(),
{
    if items.len() == 0 {
        0
    } else {
        content_size(items.drop_last()) + length_prefix(items.last().len()) + items.last().len()
    }
}

/// A stack takes no fewer bytes than any part of it that starts at the bottom.
pub proof fn lemma_content_size_prefix(items: Seq<Seq<u8>>, n: int)
    requires
        0 <= n <= items.len(),
    ensures
        content_size(items.take(n)) <= content_size(items),
    decreases items.len(),
{
    if n == items.len() {
        assert(items.take(n) =~= items);
    } else {
        assert(items.drop_last().take(n) =~= items.take(n));
        lemma_content_size_prefix(items.drop_last(), n);
    }
}

/// Calls `bitcoin::Witness::new`, which yields a witness without items.
#[verifier::external_body]
pub(crate) fn witness_new() -> (r: bitcoin::Witness)
    ensures
        witness_items(r) == Seq::<Seq<u8>>::empty(),
{
    bitcoin::Witness::new()
}

/// Calls `bitcoin::Witness::push`, which puts one item on top of the others. A witness keeps the
/// place of each item as a 32-bit number and panics where the bytes in front of a new item are
/// more than that number can count.
#[verifier::external_body]
pub(crate) fn witness_push(witness: &mut bitcoin::Witness, item: &[u8])
    requires
        content_size(witness_items(*old(witness))) <= u32::MAX,
    ensures
        witness_items(*final(witness)) == witness_items(*old(witness)).push(item@),
{
    witness.push(item)
}

} // verus!
