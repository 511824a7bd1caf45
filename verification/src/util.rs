//! Marshaling between what callers supply and the typed model: fixed lengths
//! are enforced, every field of a record is required, and nothing is ever
//! truncated or padded. A decoder asks the engine about the points of a
//! record once every length is in order, and refuses what the engine refuses.

use vstd::prelude::*;
use crate::engine::engine_accepts_hashed_value;
use crate::engine::engine_accepts_public_key;
use crate::engine::hashed_value_accepted;
use crate::engine::public_key_accepted;
use crate::error::Field;
use crate::error::RecryptError;
use crate::error::ValidationError;
use crate::model::block_records;
use crate::model::EncryptedValue;
use crate::model::EncryptedValueRecord;
use crate::model::Plaintext;
use crate::model::PrivateKey;
use crate::model::PublicKey;
use crate::model::PublicKeyRecord;
use crate::model::SignedCiphertext;
use crate::model::TransformBlock;
use crate::model::TransformBlockRecord;
use crate::model::TransformChain;
use crate::model::TransformKey;
use crate::model::TransformKeyRecord;
use crate::object::block_object_records;
use crate::scalar::elements_are_reduced;
use crate::scalar::reduced;
use crate::scalar::reduced_elements;
use crate::object::EncryptedValueObject;
use crate::object::PublicKeyObject;
use crate::object::TransformBlockObject;
use crate::object::TransformKeyObject;

verus! {

/// What is wrong with a buffer that has to hold exactly `expected_len` bytes,
/// if anything is.
pub open spec fn length_fault(buffer: Seq<u8>, field: Field, expected_len: usize) -> Option<
    ValidationError,
> {
    if buffer.len() == expected_len {
        None
    } else {
        Some(
            ValidationError::WrongLength { field, expected_len, actual_len: buffer.len() as usize },
        )
    }
}

/// The `N` bytes of the buffer, or the complaint that it does not hold `N`.
pub fn buffer_to_fixed_bytes<const N: usize>(buffer: &[u8], field: Field) -> (r: Result<
    [u8; N],
    ValidationError,
>)
    ensures
        match r {
            Ok(bytes) => length_fault(buffer@, field, N) is None && bytes@ == buffer@,
            Err(e) => length_fault(buffer@, field, N) == Some(e),
        },
{
    if buffer.len() != N {
        return Err(
            ValidationError::WrongLength { field, expected_len: N, actual_len: buffer.len() },
        );
    }
    let mut bytes: [u8; N] = [0u8; N];
    let mut i: usize = 0;
    while i < N
        invariant
            i <= N,
            buffer@.len() == N,
            forall|j: int| 0 <= j < i ==> bytes@[j] == buffer@[j],
        decreases N - i,
    {
        bytes[i] = buffer[i];
        i = i + 1;
    }
    Ok(bytes)
}

/// A 32-byte field.
pub fn buffer_to_fixed_32_bytes(buffer: &[u8], field: Field) -> (r: Result<
    [u8; 32],
    ValidationError,
>)
    ensures
        match r {
            Ok(bytes) => length_fault(buffer@, field, 32) is None && bytes@ == buffer@,
            Err(e) => length_fault(buffer@, field, 32) == Some(e),
        },
{
    buffer_to_fixed_bytes::<32>(buffer, field)
}

/// A 64-byte field.
pub fn buffer_to_fixed_64_bytes(buffer: &[u8], field: Field) -> (r: Result<
    [u8; 64],
    ValidationError,
>)
    ensures
        match r {
            Ok(bytes) => length_fault(buffer@, field, 64) is None && bytes@ == buffer@,
            Err(e) => length_fault(buffer@, field, 64) == Some(e),
        },
{
    buffer_to_fixed_bytes::<64>(buffer, field)
}

/// A 128-byte field.
pub fn buffer_to_fixed_128_bytes(buffer: &[u8], field: Field) -> (r: Result<
    [u8; 128],
    ValidationError,
>)
    ensures
        match r {
            Ok(bytes) => length_fault(buffer@, field, 128) is None && bytes@ == buffer@,
            Err(e) => length_fault(buffer@, field, 128) == Some(e),
        },
{
    buffer_to_fixed_bytes::<128>(buffer, field)
}

/// A 384-byte field.
pub fn buffer_to_fixed_384_bytes(buffer: &[u8], field: Field) -> (r: Result<
    [u8; 384],
    ValidationError,
>)
    ensures
        match r {
            Ok(bytes) => length_fault(buffer@, field, 384) is None && bytes@ == buffer@,
            Err(e) => length_fault(buffer@, field, 384) == Some(e),
        },
{
    buffer_to_fixed_bytes::<384>(buffer, field)
}

/// The bytes of a Schnorr signature.
pub fn buffer_to_schnorr_signature(buffer: &[u8]) -> (r: Result<[u8; 64], ValidationError>)
    ensures
        match r {
            Ok(bytes) => length_fault(buffer@, Field::Signature, 64) is None && bytes@ == buffer@,
            Err(e) => length_fault(buffer@, Field::Signature, 64) == Some(e),
        },
{
    buffer_to_fixed_64_bytes(buffer, Field::Signature)
}

/// The bytes of an Ed25519 signature.
pub fn buffer_to_ed25519_signature(buffer: &[u8]) -> (r: Result<[u8; 64], ValidationError>)
    ensures
        match r {
            Ok(bytes) => length_fault(buffer@, Field::Signature, 64) is None && bytes@ == buffer@,
            Err(e) => length_fault(buffer@, Field::Signature, 64) == Some(e),
        },
{
    buffer_to_fixed_64_bytes(buffer, Field::Signature)
}

/// The bytes of a buffer of any length, unchanged.
pub fn buffer_to_variable_bytes(buffer: &[u8]) -> (r: Vec<u8>)
    ensures
        r@ == buffer@,
{
    let mut bytes: Vec<u8> = Vec::new();
    let mut i: usize = 0;
    while i < buffer.len()
        invariant
            i <= buffer@.len(),
            bytes@ == buffer@.subrange(0, i as int),
        decreases buffer@.len() - i,
    {
        bytes.push(buffer[i]);
        i = i + 1;
    }
    bytes
}

/// A buffer that holds exactly the given bytes.
pub fn bytes_to_buffer(data: &[u8]) -> (r: Vec<u8>)
    ensures
        r@ == data@,
{
    buffer_to_variable_bytes(data)
}

/// The private key in a buffer.
pub fn buffer_to_private_key(buffer: &[u8]) -> (r: Result<PrivateKey, ValidationError>)
    ensures
        match r {
            Ok(key) => length_fault(buffer@, Field::PrivateKey, 32) is None && key.bytes@
                == buffer@,
            Err(e) => length_fault(buffer@, Field::PrivateKey, 32) == Some(e),
        },
{
    match buffer_to_fixed_32_bytes(buffer, Field::PrivateKey) {
        Ok(bytes) => Ok(PrivateKey { bytes }),
        Err(e) => Err(e),
    }
}

/// The plaintext in a buffer.
pub fn buffer_to_plaintext(buffer: &[u8]) -> (r: Result<Plaintext, ValidationError>)
    ensures
        match r {
            Ok(plaintext) => length_fault(buffer@, Field::Plaintext, 384) is None
                && plaintext.bytes@ == buffer@,
            Err(e) => length_fault(buffer@, Field::Plaintext, 384) == Some(e),
        },
{
    match buffer_to_fixed_384_bytes(buffer, Field::Plaintext) {
        Ok(bytes) => Ok(Plaintext { bytes }),
        Err(e) => Err(e),
    }
}

/// The complaint that a field is missing, unless it is there.
pub open spec fn presence_fault(present: bool, field: Field) -> Option<ValidationError> {
    if present {
        None
    } else {
        Some(ValidationError::MissingField { field })
    }
}

/// The first of two complaints: a later check counts only if the earlier one
/// found nothing.
pub open spec fn first_fault(earlier: Option<ValidationError>, later: Option<ValidationError>) -> Option<
    ValidationError,
> {
    if earlier is Some {
        earlier
    } else {
        later
    }
}

/// What is wrong with a public key record: a coordinate is missing, or one is
/// there with another length than 32. Presence is looked at first.
pub open spec fn public_key_fault(key: PublicKeyRecord) -> Option<ValidationError> {
    first_fault(
        presence_fault(key.x is Some, Field::PublicKeyX),
        first_fault(
            presence_fault(key.y is Some, Field::PublicKeyY),
            first_fault(
                length_fault(key.x->0, Field::PublicKeyX, 32),
                length_fault(key.y->0, Field::PublicKeyY, 32),
            ),
        ),
    )
}

/// What is wrong with a transform key record. All six fields have to be
/// there; then each is looked at in the order in which the signature covers
/// them, the signature last.
pub open spec fn transform_key_fault(key: TransformKeyRecord) -> Option<ValidationError> {
    first_fault(
        presence_fault(key.encrypted_temp_key is Some, Field::EncryptedTempKey),
        first_fault(
            presence_fault(key.ephemeral_public_key is Some, Field::EphemeralPublicKey),
            first_fault(
                presence_fault(key.hashed_temp_key is Some, Field::HashedTempKey),
                first_fault(
                    presence_fault(key.public_signing_key is Some, Field::PublicSigningKey),
                    first_fault(
                        presence_fault(key.signature is Some, Field::Signature),
                        first_fault(
                            presence_fault(key.to_public_key is Some, Field::ToPublicKey),
                            transform_key_content_fault(key),
                        ),
                    ),
                ),
            ),
        ),
    )
}

/// What is wrong inside the fields of a transform key record that has them
/// all.
pub open spec fn transform_key_content_fault(key: TransformKeyRecord) -> Option<ValidationError> {
    first_fault(
        public_key_fault(key.ephemeral_public_key->0),
        first_fault(
            public_key_fault(key.to_public_key->0),
            first_fault(
                length_fault(key.encrypted_temp_key->0, Field::EncryptedTempKey, 384),
                first_fault(
                    length_fault(key.hashed_temp_key->0, Field::HashedTempKey, 128),
                    first_fault(
                        length_fault(key.public_signing_key->0, Field::PublicSigningKey, 32),
                        length_fault(key.signature->0, Field::Signature, 64),
                    ),
                ),
            ),
        ),
    )
}

/// What is wrong with one transform block record.
pub open spec fn transform_block_fault(block: TransformBlockRecord) -> Option<ValidationError> {
    first_fault(
        presence_fault(block.public_key is Some, Field::BlockPublicKey),
        first_fault(
            presence_fault(block.encrypted_temp_key is Some, Field::BlockEncryptedTempKey),
            first_fault(
                presence_fault(
                    block.random_transform_public_key is Some,
                    Field::BlockRandomTransformPublicKey,
                ),
                first_fault(
                    presence_fault(
                        block.random_transform_encrypted_temp_key is Some,
                        Field::BlockRandomTransformEncryptedTempKey,
                    ),
                    transform_block_content_fault(block),
                ),
            ),
        ),
    )
}

/// What is wrong inside the fields of a transform block record that has them
/// all.
pub open spec fn transform_block_content_fault(block: TransformBlockRecord) -> Option<
    ValidationError,
> {
    first_fault(
        public_key_fault(block.public_key->0),
        first_fault(
            length_fault(block.encrypted_temp_key->0, Field::BlockEncryptedTempKey, 384),
            first_fault(
                public_key_fault(block.random_transform_public_key->0),
                length_fault(
                    block.random_transform_encrypted_temp_key->0,
                    Field::BlockRandomTransformEncryptedTempKey,
                    384,
                ),
            ),
        ),
    )
}

/// The complaint about the first block, from `start` on, that has one.
pub open spec fn blocks_fault_from(blocks: Seq<TransformBlockRecord>, start: int) -> Option<
    ValidationError,
>
    decreases blocks.len() - start,
{
    if start < 0 || start >= blocks.len() {
        None
    } else {
        first_fault(transform_block_fault(blocks[start]), blocks_fault_from(blocks, start + 1))
    }
}

/// What is wrong with a list of block records that has to be a transform
/// chain: the first faulty block decides, and a list without blocks is no
/// chain.
pub open spec fn transform_blocks_fault(blocks: Seq<TransformBlockRecord>) -> Option<
    ValidationError,
> {
    first_fault(
        blocks_fault_from(blocks, 0),
        if blocks.len() == 0 {
            Some(ValidationError::EmptyTransformBlocks)
        } else {
            None
        },
    )
}

/// What is wrong with an encrypted value record. All six fields have to be
/// there; then each is looked at, the blocks last and in their order. An
/// empty list of blocks is in order: it is how a value encrypted once looks.
pub open spec fn encrypted_value_fault(value: EncryptedValueRecord) -> Option<ValidationError> {
    first_fault(
        presence_fault(value.ephemeral_public_key is Some, Field::EphemeralPublicKey),
        first_fault(
            presence_fault(value.encrypted_message is Some, Field::EncryptedMessage),
            first_fault(
                presence_fault(value.auth_hash is Some, Field::AuthHash),
                first_fault(
                    presence_fault(value.public_signing_key is Some, Field::PublicSigningKey),
                    first_fault(
                        presence_fault(value.signature is Some, Field::Signature),
                        first_fault(
                            presence_fault(value.transform_blocks is Some, Field::TransformBlocks),
                            encrypted_value_content_fault(value),
                        ),
                    ),
                ),
            ),
        ),
    )
}

/// What is wrong inside the fields of an encrypted value record that has
/// them all.
pub open spec fn encrypted_value_content_fault(value: EncryptedValueRecord) -> Option<
    ValidationError,
> {
    first_fault(
        public_key_fault(value.ephemeral_public_key->0),
        first_fault(
            length_fault(value.encrypted_message->0, Field::EncryptedMessage, 384),
            first_fault(
                length_fault(value.auth_hash->0, Field::AuthHash, 32),
                first_fault(
                    length_fault(value.public_signing_key->0, Field::PublicSigningKey, 32),
                    first_fault(
                        length_fault(value.signature->0, Field::Signature, 64),
                        blocks_fault_from(value.transform_blocks->0, 0),
                    ),
                ),
            ),
        ),
    )
}

/// The field of a record, which has to be there.
fn required<'a, T>(value: &'a Option<T>, field: Field) -> (r: Result<&'a T, ValidationError>)
    ensures
        match r {
            Ok(inner) => *value == Some(*inner),
            Err(e) => presence_fault(*value is Some, field) == Some(e),
        },
{
    match value {
        Some(inner) => Ok(inner),
        None => Err(ValidationError::MissingField { field }),
    }
}

/// The public key of a record with two 32-byte coordinates. Whether they
/// are a point of the curve is not looked at.
pub fn validate_public_key(object: &PublicKeyObject) -> (r: Result<PublicKey, ValidationError>)
    ensures
        match r {
            Ok(key) => public_key_fault(object@) is None && key@ == object@,
            Err(e) => public_key_fault(object@) == Some(e),
        },
{
    let x = required(&object.x, Field::PublicKeyX)?;
    let y = required(&object.y, Field::PublicKeyY)?;
    let x = buffer_to_fixed_32_bytes(x.as_slice(), Field::PublicKeyX)?;
    let y = buffer_to_fixed_32_bytes(y.as_slice(), Field::PublicKeyY)?;
    Ok(PublicKey { x, y })
}

/// The record of a public key.
pub fn public_key_to_js_object(public_key: &PublicKey) -> (r: PublicKeyObject)
    ensures
        r@ == public_key@,
{
    PublicKeyObject {
        x: Some(bytes_to_buffer(public_key.x.as_slice())),
        y: Some(bytes_to_buffer(public_key.y.as_slice())),
    }
}

/// The transform key of a record that has every field in its length. The
/// engine is not asked.
pub fn validate_transform_key(object: &TransformKeyObject) -> (r: Result<
    TransformKey,
    ValidationError,
>)
    ensures
        match r {
            Ok(key) => transform_key_fault(object@) is None && key@ == object@,
            Err(e) => transform_key_fault(object@) == Some(e),
        },
{
    let encrypted_temp_key = required(&object.encrypted_temp_key, Field::EncryptedTempKey)?;
    let ephemeral_public_key = required(&object.ephemeral_public_key, Field::EphemeralPublicKey)?;
    let hashed_temp_key = required(&object.hashed_temp_key, Field::HashedTempKey)?;
    let public_signing_key = required(&object.public_signing_key, Field::PublicSigningKey)?;
    let signature = required(&object.signature, Field::Signature)?;
    let to_public_key = required(&object.to_public_key, Field::ToPublicKey)?;
    let ephemeral_public_key = validate_public_key(ephemeral_public_key)?;
    let to_public_key = validate_public_key(to_public_key)?;
    let encrypted_temp_key = buffer_to_fixed_384_bytes(
        encrypted_temp_key.as_slice(),
        Field::EncryptedTempKey,
    )?;
    let hashed_temp_key = buffer_to_fixed_128_bytes(
        hashed_temp_key.as_slice(),
        Field::HashedTempKey,
    )?;
    let public_signing_key = buffer_to_fixed_32_bytes(
        public_signing_key.as_slice(),
        Field::PublicSigningKey,
    )?;
    let signature = buffer_to_ed25519_signature(signature.as_slice())?;
    Ok(
        TransformKey {
            ephemeral_public_key,
            to_public_key,
            encrypted_temp_key,
            hashed_temp_key,
            public_signing_key,
            signature,
        },
    )
}

/// The record of a transform key.
pub fn transform_key_to_js_object(transform_key: &TransformKey) -> (r: TransformKeyObject)
    ensures
        r@ == transform_key@,
{
    TransformKeyObject {
        ephemeral_public_key: Some(public_key_to_js_object(&transform_key.ephemeral_public_key)),
        to_public_key: Some(public_key_to_js_object(&transform_key.to_public_key)),
        encrypted_temp_key: Some(bytes_to_buffer(transform_key.encrypted_temp_key.as_slice())),
        hashed_temp_key: Some(bytes_to_buffer(transform_key.hashed_temp_key.as_slice())),
        public_signing_key: Some(bytes_to_buffer(transform_key.public_signing_key.as_slice())),
        signature: Some(bytes_to_buffer(transform_key.signature.as_slice())),
    }
}

/// The transform block of a record that has every field in its length. The
/// engine is not asked.
pub fn validate_transform_block(object: &TransformBlockObject) -> (r: Result<
    TransformBlock,
    ValidationError,
>)
    ensures
        match r {
            Ok(block) => transform_block_fault(object@) is None && block@ == object@,
            Err(e) => transform_block_fault(object@) == Some(e),
        },
{
    let public_key = required(&object.public_key, Field::BlockPublicKey)?;
    let encrypted_temp_key = required(&object.encrypted_temp_key, Field::BlockEncryptedTempKey)?;
    let random_transform_public_key = required(
        &object.random_transform_public_key,
        Field::BlockRandomTransformPublicKey,
    )?;
    let random_transform_encrypted_temp_key = required(
        &object.random_transform_encrypted_temp_key,
        Field::BlockRandomTransformEncryptedTempKey,
    )?;
    let public_key = validate_public_key(public_key)?;
    let encrypted_temp_key = buffer_to_fixed_384_bytes(
        encrypted_temp_key.as_slice(),
        Field::BlockEncryptedTempKey,
    )?;
    let random_transform_public_key = validate_public_key(random_transform_public_key)?;
    let random_transform_encrypted_temp_key = buffer_to_fixed_384_bytes(
        random_transform_encrypted_temp_key.as_slice(),
        Field::BlockRandomTransformEncryptedTempKey,
    )?;
    Ok(
        TransformBlock {
            public_key,
            encrypted_temp_key,
            random_transform_public_key,
            random_transform_encrypted_temp_key,
        },
    )
}

/// The record of a transform block.
pub fn transform_block_to_js_object(block: &TransformBlock) -> (r: TransformBlockObject)
    ensures
        r@ == block@,
{
    TransformBlockObject {
        public_key: Some(public_key_to_js_object(&block.public_key)),
        encrypted_temp_key: Some(bytes_to_buffer(block.encrypted_temp_key.as_slice())),
        random_transform_public_key: Some(
            public_key_to_js_object(&block.random_transform_public_key),
        ),
        random_transform_encrypted_temp_key: Some(
            bytes_to_buffer(block.random_transform_encrypted_temp_key.as_slice()),
        ),
    }
}

/// The blocks of a list of records, each of which has to be in order.
fn decode_blocks(blocks: &[TransformBlockObject]) -> (r: Result<Vec<TransformBlock>, ValidationError>)
    ensures
        match r {
            Ok(decoded) => blocks_fault_from(block_object_records(blocks@), 0) is None
                && block_records(decoded@) == block_object_records(blocks@),
            Err(e) => blocks_fault_from(block_object_records(blocks@), 0) == Some(e),
        },
{
    let ghost records = block_object_records(blocks@);
    let mut decoded: Vec<TransformBlock> = Vec::new();
    let mut i: usize = 0;
    while i < blocks.len()
        invariant
            i <= blocks@.len(),
            records == block_object_records(blocks@),
            decoded@.len() == i,
            blocks_fault_from(records, 0) == blocks_fault_from(records, i as int),
            forall|j: int| 0 <= j < i ==> (#[trigger] decoded@[j])@ == records[j],
        decreases blocks@.len() - i,
    {
        match validate_transform_block(&blocks[i]) {
            Ok(block) => {
                decoded.push(block);
            },
            Err(e) => {
                return Err(e);
            },
        }
        i = i + 1;
    }
    Ok(decoded)
}

/// The transform chain of a list of block records: at least one block, each
/// with every field in its length. The engine is not asked.
pub fn validate_transform_blocks(blocks: &[TransformBlockObject]) -> (r: Result<
    TransformChain,
    ValidationError,
>)
    ensures
        match r {
            Ok(chain) => transform_blocks_fault(block_object_records(blocks@)) is None
                && block_records(chain@) == block_object_records(blocks@),
            Err(e) => transform_blocks_fault(block_object_records(blocks@)) == Some(e),
        },
{
    let decoded = decode_blocks(blocks)?;
    match TransformChain::new(decoded) {
        Some(chain) => Ok(chain),
        None => Err(ValidationError::EmptyTransformBlocks),
    }
}

/// The records of the given blocks, in their order.
pub fn transform_blocks_to_js_object(transform_blocks: &[TransformBlock]) -> (r: Vec<
    TransformBlockObject,
>)
    ensures
        block_object_records(r@) == block_records(transform_blocks@),
{
    let mut objects: Vec<TransformBlockObject> = Vec::new();
    let mut i: usize = 0;
    while i < transform_blocks.len()
        invariant
            i <= transform_blocks@.len(),
            objects@.len() == i,
            forall|j: int| 0 <= j < i ==> (#[trigger] objects@[j])@ == transform_blocks@[j]@,
        decreases transform_blocks@.len() - i,
    {
        objects.push(transform_block_to_js_object(&transform_blocks[i]));
        i = i + 1;
    }
    objects
}

/// The encrypted value of a record that has every field in its length. The
/// list of blocks decides the variant: without a block the value was
/// encrypted once, with at least one it was transformed. The engine is not
/// asked.
pub fn validate_encrypted_value(object: &EncryptedValueObject) -> (r: Result<
    EncryptedValue,
    ValidationError,
>)
    ensures
        match r {
            Ok(value) => encrypted_value_fault(object@) is None && value@ == object@ && (value
                is EncryptedOnce) == (object@.transform_blocks->0.len() == 0),
            Err(e) => encrypted_value_fault(object@) == Some(e),
        },
{
    let ephemeral_public_key = required(&object.ephemeral_public_key, Field::EphemeralPublicKey)?;
    let encrypted_message = required(&object.encrypted_message, Field::EncryptedMessage)?;
    let auth_hash = required(&object.auth_hash, Field::AuthHash)?;
    let public_signing_key = required(&object.public_signing_key, Field::PublicSigningKey)?;
    let signature = required(&object.signature, Field::Signature)?;
    let transform_blocks = required(&object.transform_blocks, Field::TransformBlocks)?;
    let ephemeral_public_key = validate_public_key(ephemeral_public_key)?;
    let encrypted_message = buffer_to_fixed_384_bytes(
        encrypted_message.as_slice(),
        Field::EncryptedMessage,
    )?;
    let auth_hash = buffer_to_fixed_32_bytes(auth_hash.as_slice(), Field::AuthHash)?;
    let public_signing_key = buffer_to_fixed_32_bytes(
        public_signing_key.as_slice(),
        Field::PublicSigningKey,
    )?;
    let signature = buffer_to_ed25519_signature(signature.as_slice())?;
    let ciphertext = SignedCiphertext {
        ephemeral_public_key,
        encrypted_message,
        auth_hash,
        public_signing_key,
        signature,
    };
    if transform_blocks.len() > 0 {
        let transform_blocks = validate_transform_blocks(transform_blocks.as_slice())?;
        Ok(EncryptedValue::Transformed { ciphertext, transform_blocks })
    } else {
        assert(block_records(Seq::<TransformBlock>::empty()) =~= block_object_records(
            transform_blocks@,
        ));
        Ok(EncryptedValue::EncryptedOnce { ciphertext })
    }
}

/// The record of an encrypted value: the chain of a transformed value in its
/// order, an empty list for a value encrypted once.
pub fn encrypted_value_to_js_object(encrypted_value: &EncryptedValue) -> (r: EncryptedValueObject)
    ensures
        r@ == encrypted_value@,
{
    let ciphertext = encrypted_value.ciphertext();
    let transform_blocks = match encrypted_value {
        EncryptedValue::EncryptedOnce { .. } => Vec::new(),
        EncryptedValue::Transformed { transform_blocks, .. } => transform_blocks_to_js_object(
            transform_blocks.as_slice(),
        ),
    };
    assert(block_object_records(transform_blocks@) =~= block_records(
        encrypted_value.spec_blocks(),
    ));
    EncryptedValueObject {
        ephemeral_public_key: Some(public_key_to_js_object(&ciphertext.ephemeral_public_key)),
        encrypted_message: Some(bytes_to_buffer(ciphertext.encrypted_message.as_slice())),
        auth_hash: Some(bytes_to_buffer(ciphertext.auth_hash.as_slice())),
        public_signing_key: Some(bytes_to_buffer(ciphertext.public_signing_key.as_slice())),
        signature: Some(bytes_to_buffer(ciphertext.signature.as_slice())),
        transform_blocks: Some(transform_blocks),
    }
}

/// What validation found, as the failure of an operation.
pub fn validated<T>(checked: Result<T, ValidationError>) -> (r: Result<T, RecryptError>)
    ensures
        match checked {
            Ok(value) => r == Ok::<T, RecryptError>(value),
            Err(e) => r == Err::<T, RecryptError>(RecryptError::Validation(e)),
        },
{
    match checked {
        Ok(value) => Ok(value),
        Err(e) => Err(RecryptError::Validation(e)),
    }
}

/// Whether the engine accepts a transform key: its two public keys have to
/// be points of the curve, and its hashed temp key one of the twisted curve.
pub open spec fn transform_key_accepted(key: TransformKeyRecord) -> bool {
    &&& public_key_accepted(key.ephemeral_public_key->0)
    &&& public_key_accepted(key.to_public_key->0)
    &&& hashed_value_accepted(key.hashed_temp_key->0)
}

/// A public key as the engine holds it: each coordinate reduced by the
/// field prime.
pub open spec fn canonical_public_key(key: PublicKeyRecord) -> PublicKeyRecord {
    PublicKeyRecord { x: Some(reduced(key.x->0)), y: Some(reduced(key.y->0)) }
}

/// A transform key as the engine holds it: the coordinates of the two public
/// keys and the field elements of the encrypted temp key reduced by the field
/// prime, the other fields as they are.
pub open spec fn canonical_transform_key(key: TransformKeyRecord) -> TransformKeyRecord {
    TransformKeyRecord {
        ephemeral_public_key: Some(canonical_public_key(key.ephemeral_public_key->0)),
        to_public_key: Some(canonical_public_key(key.to_public_key->0)),
        encrypted_temp_key: Some(reduced_elements(key.encrypted_temp_key->0)),
        ..key
    }
}

/// Whether a transform key is as the engine holds it: every coordinate and
/// every field element of the encrypted temp key below the field prime.
pub open spec fn transform_key_is_canonical(key: TransformKeyRecord) -> bool {
    &&& elements_are_reduced(key.ephemeral_public_key->0.x->0)
    &&& elements_are_reduced(key.ephemeral_public_key->0.y->0)
    &&& elements_are_reduced(key.to_public_key->0.x->0)
    &&& elements_are_reduced(key.to_public_key->0.y->0)
    &&& elements_are_reduced(key.encrypted_temp_key->0)
}

/// Whether the engine accepts a transform block: its two public keys have to
/// be points of the curve.
pub open spec fn transform_block_accepted(block: TransformBlockRecord) -> bool {
    &&& public_key_accepted(block.public_key->0)
    &&& public_key_accepted(block.random_transform_public_key->0)
}

/// Whether the engine accepts every block.
pub open spec fn blocks_accepted(blocks: Seq<TransformBlockRecord>) -> bool {
    forall|i: int| 0 <= i < blocks.len() ==> transform_block_accepted(#[trigger] blocks[i])
}

/// Whether the engine accepts an encrypted value: the ephemeral public key
/// and the public keys of every block have to be points of the curve.
pub open spec fn encrypted_value_accepted(value: EncryptedValueRecord) -> bool {
    &&& public_key_accepted(value.ephemeral_public_key->0)
    &&& blocks_accepted(value.transform_blocks->0)
}

/// Whether the engine accepts a transform key.
fn transform_key_is_accepted(key: &TransformKey) -> (r: bool)
    ensures
        r == transform_key_accepted(key@),
{
    engine_accepts_public_key(&key.ephemeral_public_key) && engine_accepts_public_key(
        &key.to_public_key,
    ) && engine_accepts_hashed_value(&key.hashed_temp_key)
}

/// Whether the engine accepts every block.
fn blocks_are_accepted(blocks: &[TransformBlock]) -> (r: bool)
    ensures
        r == blocks_accepted(block_records(blocks@)),
{
    let mut i: usize = 0;
    while i < blocks.len()
        invariant
            i <= blocks@.len(),
            forall|j: int| 0 <= j < i ==> transform_block_accepted(#[trigger] blocks@[j]@),
        decreases blocks@.len() - i,
    {
        let accepted = engine_accepts_public_key(&blocks[i].public_key)
            && engine_accepts_public_key(&blocks[i].random_transform_public_key);
        if !accepted {
            assert(!transform_block_accepted(block_records(blocks@)[i as int]));
            return false;
        }
        i = i + 1;
    }
    true
}

/// Whether the engine accepts an encrypted value.
fn encrypted_value_is_accepted(value: &EncryptedValue) -> (r: bool)
    ensures
        r == encrypted_value_accepted(value@),
{
    let ciphertext = value.ciphertext();
    if !engine_accepts_public_key(&ciphertext.ephemeral_public_key) {
        return false;
    }
    match value {
        EncryptedValue::EncryptedOnce { .. } => true,
        EncryptedValue::Transformed { transform_blocks, .. } => blocks_are_accepted(
            transform_blocks.as_slice(),
        ),
    }
}

/// The public key of a record: two 32-byte coordinates of a point of the
/// curve. The engine is asked about the point once the lengths are in order,
/// and it alone can refuse it.
pub fn js_object_to_public_key(object: &PublicKeyObject) -> (r: Result<PublicKey, RecryptError>)
    ensures
        match r {
            Ok(key) => public_key_fault(object@) is None && public_key_accepted(object@) && key@
                == object@,
            Err(RecryptError::Validation(e)) => public_key_fault(object@) == Some(e),
            Err(RecryptError::EngineFailure) => public_key_fault(object@) is None
                && !public_key_accepted(object@),
        },
{
    let key = validated(validate_public_key(object))?;
    if engine_accepts_public_key(&key) {
        Ok(key)
    } else {
        Err(RecryptError::EngineFailure)
    }
}

/// The transform key of a record that has every field in its length and
/// that the engine accepts. The engine is asked once every length is in
/// order, so that a length that is off is always what is reported.
pub fn js_object_to_transform_key(object: &TransformKeyObject) -> (r: Result<
    TransformKey,
    RecryptError,
>)
    ensures
        match r {
            Ok(key) => transform_key_fault(object@) is None && transform_key_accepted(object@)
                && key@ == object@,
            Err(RecryptError::Validation(e)) => transform_key_fault(object@) == Some(e),
            Err(RecryptError::EngineFailure) => transform_key_fault(object@) is None
                && !transform_key_accepted(object@),
        },
{
    let key = validated(validate_transform_key(object))?;
    if transform_key_is_accepted(&key) {
        Ok(key)
    } else {
        Err(RecryptError::EngineFailure)
    }
}

/// The transform chain of a list of block records: at least one block, each
/// with every field in its length and with public keys that the engine
/// accepts. The engine is asked once every block is in order.
pub fn js_object_to_transform_blocks(blocks: &[TransformBlockObject]) -> (r: Result<
    TransformChain,
    RecryptError,
>)
    ensures
        match r {
            Ok(chain) => transform_blocks_fault(block_object_records(blocks@)) is None
                && blocks_accepted(block_object_records(blocks@)) && block_records(chain@)
                == block_object_records(blocks@),
            Err(RecryptError::Validation(e)) => transform_blocks_fault(
                block_object_records(blocks@),
            ) == Some(e),
            Err(RecryptError::EngineFailure) => transform_blocks_fault(
                block_object_records(blocks@),
            ) is None && !blocks_accepted(block_object_records(blocks@)),
        },
{
    let chain = validated(validate_transform_blocks(blocks))?;
    if blocks_are_accepted(chain.as_slice()) {
        Ok(chain)
    } else {
        Err(RecryptError::EngineFailure)
    }
}

/// The encrypted value of a record that has every field in its length and
/// that the engine accepts. The list of blocks decides the variant: without
/// a block the value was encrypted once, with at least one it was
/// transformed. The engine is asked once every length is in order.
pub fn js_object_to_encrypted_value(object: &EncryptedValueObject) -> (r: Result<
    EncryptedValue,
    RecryptError,
>)
    ensures
        match r {
            Ok(value) => encrypted_value_fault(object@) is None && encrypted_value_accepted(
                object@,
            ) && value@ == object@ && (value is EncryptedOnce) == (
            object@.transform_blocks->0.len() == 0),
            Err(RecryptError::Validation(e)) => encrypted_value_fault(object@) == Some(e),
            Err(RecryptError::EngineFailure) => encrypted_value_fault(object@) is None
                && !encrypted_value_accepted(object@),
        },
{
    let value = validated(validate_encrypted_value(object))?;
    if encrypted_value_is_accepted(&value) {
        Ok(value)
    } else {
        Err(RecryptError::EngineFailure)
    }
}

} // verus!
