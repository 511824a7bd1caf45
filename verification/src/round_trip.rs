//! Encoding and decoding undo each other: every typed value is a record
//! that validation finds in order, and a typed value is determined by its
//! record. Whether the engine accepts the points in it is another matter: a
//! decoder refuses what the engine refuses.

use vstd::prelude::*;
use crate::model::block_records;
use crate::model::EncryptedValue;
use crate::model::PublicKey;
use crate::model::TransformBlock;
use crate::model::TransformKey;
use crate::util::blocks_fault_from;
use crate::util::encrypted_value_fault;
use crate::util::public_key_fault;
use crate::util::transform_block_fault;
use crate::util::transform_blocks_fault;
use crate::util::transform_key_fault;

verus! {

/// The record of a public key is in order, and two public keys with the
/// same record are the same key.
pub proof fn lemma_public_key_round_trip(key: PublicKey, decoded: PublicKey)
    requires
        decoded@ == key@,
    ensures
        public_key_fault(key@) is None,
        decoded == key,
{
    assert(decoded.x == key.x);
    assert(decoded.y == key.y);
}

/// The record of a transform key is in order, and two transform keys with
/// the same record are the same key.
pub proof fn lemma_transform_key_round_trip(key: TransformKey, decoded: TransformKey)
    requires
        decoded@ == key@,
    ensures
        transform_key_fault(key@) is None,
        decoded == key,
{
    lemma_public_key_round_trip(key.ephemeral_public_key, decoded.ephemeral_public_key);
    lemma_public_key_round_trip(key.to_public_key, decoded.to_public_key);
    assert(decoded.encrypted_temp_key == key.encrypted_temp_key);
    assert(decoded.hashed_temp_key == key.hashed_temp_key);
    assert(decoded.public_signing_key == key.public_signing_key);
    assert(decoded.signature == key.signature);
}

/// The record of a transform block is in order, and two blocks with the
/// same record are the same block.
pub proof fn lemma_transform_block_round_trip(block: TransformBlock, decoded: TransformBlock)
    requires
        decoded@ == block@,
    ensures
        transform_block_fault(block@) is None,
        decoded == block,
{
    lemma_public_key_round_trip(block.public_key, decoded.public_key);
    lemma_public_key_round_trip(
        block.random_transform_public_key,
        decoded.random_transform_public_key,
    );
    assert(decoded.encrypted_temp_key == block.encrypted_temp_key);
    assert(decoded.random_transform_encrypted_temp_key
        == block.random_transform_encrypted_temp_key);
}

/// No block of a typed sequence is complained about.
proof fn lemma_blocks_in_order_from(blocks: Seq<TransformBlock>, start: int)
    requires
        0 <= start,
    ensures
        blocks_fault_from(block_records(blocks), start) is None,
    decreases blocks.len() - start,
{
    if start < blocks.len() {
        lemma_blocks_in_order_from(blocks, start + 1);
    }
}

/// The records of a sequence of blocks are in order as a transform chain
/// exactly if there is a block, and two sequences with the same records are
/// the same sequence.
pub proof fn lemma_transform_blocks_round_trip(
    blocks: Seq<TransformBlock>,
    decoded: Seq<TransformBlock>,
)
    requires
        block_records(decoded) == block_records(blocks),
    ensures
        transform_blocks_fault(block_records(blocks)) is None <==> blocks.len() > 0,
        decoded == blocks,
{
    lemma_blocks_in_order_from(blocks, 0);
    assert forall|i: int| 0 <= i < blocks.len() implies decoded[i] == blocks[i] by {
        assert(block_records(blocks)[i] == blocks[i]@);
        lemma_transform_block_round_trip(blocks[i], decoded[i]);
    }
}

/// The record of an encrypted value is in order; it has no block exactly if
/// the value was encrypted once; and two values with the same record are of
/// the same variant, with the same ciphertext and the same chain. So encoding
/// the value that decoding an encoding gave yields that encoding again.
pub proof fn lemma_encrypted_value_round_trip(value: EncryptedValue, decoded: EncryptedValue)
    requires
        value.wf(),
        decoded.wf(),
        decoded@ == value@,
    ensures
        encrypted_value_fault(value@) is None,
        (value is EncryptedOnce) == (value@.transform_blocks->0.len() == 0),
        (decoded is EncryptedOnce) == (value is EncryptedOnce),
        decoded.spec_ciphertext() == value.spec_ciphertext(),
        decoded.spec_blocks() == value.spec_blocks(),
{
    let ciphertext = value.spec_ciphertext();
    let other = decoded.spec_ciphertext();
    lemma_public_key_round_trip(ciphertext.ephemeral_public_key, other.ephemeral_public_key);
    assert(other.encrypted_message == ciphertext.encrypted_message);
    assert(other.auth_hash == ciphertext.auth_hash);
    assert(other.public_signing_key == ciphertext.public_signing_key);
    assert(other.signature == ciphertext.signature);
    lemma_transform_blocks_round_trip(value.spec_blocks(), decoded.spec_blocks());
}

} // verus!
