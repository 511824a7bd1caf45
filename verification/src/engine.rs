//! The cryptographic engine, `recrypt`, and everything that is believed of
//! it. Nothing in this file is proved: each function makes one call into the
//! engine and converts its arguments and its result, and its contract says
//! what the engine's source shows of that call. The mathematics of the curve
//! and of the pairing stays the engine's: of a result that its arguments
//! determine, the contract gives only a name, unless a few lines can say
//! what it is.

use vstd::prelude::*;
use recrypt::api::AuthHash;
use recrypt::api::CryptoOps;
use recrypt::api::DefaultRng;
use recrypt::api::Ed25519;
use recrypt::api::Ed25519Ops;
use recrypt::api::Ed25519Signature;
use recrypt::api::EncryptedMessage;
use recrypt::api::EncryptedTempKey;
use recrypt::api::EncryptedValue as EngineValue;
use recrypt::api::Hashable;
use recrypt::api::HashedValue;
use recrypt::api::KeyGenOps;
use recrypt::api::Plaintext as EnginePlaintext;
use recrypt::api::PrivateKey as EnginePrivateKey;
use recrypt::api::PublicKey as EnginePublicKey;
use recrypt::api::PublicSigningKey;
use recrypt::api::RandomBytes;
use recrypt::api::Recrypt;
use recrypt::api::SchnorrOps;
use recrypt::api::SchnorrSignature;
use recrypt::api::Sha256;
use recrypt::api::SigningKeypair;
use recrypt::api::TransformBlock as EngineTransformBlock;
use recrypt::api::TransformKey as EngineTransformKey;
use recrypt::nonemptyvec::NonEmptyVec;
use crate::model::block_records;
use crate::model::transform_key_signable_bytes;
use crate::model::EncryptedValueRecord;
use crate::model::Plaintext;
use crate::model::PrivateKey;
use crate::model::PublicKey;
use crate::model::PublicKeyRecord;
use crate::model::SignedCiphertext;
use crate::model::SigningKeyPair;
use crate::model::TransformBlock;
use crate::model::TransformKey;
use crate::model::TransformBlockRecord;
use crate::model::TransformKeyRecord;
use crate::scalar::private_key_difference;
use crate::scalar::private_key_sum;
use crate::util::canonical_transform_key;
use crate::util::encrypted_value_accepted;
use crate::util::transform_key_accepted;
use crate::util::transform_key_fault;

verus! {

/// An instance of the engine with its source of randomness: `recrypt`'s
/// `Recrypt<Sha256, Ed25519, RandomBytes<DefaultRng>>`. Nothing is known of
/// what it holds.
#[verifier::external_body]
pub struct RecryptApi256 {
    api: Recrypt<Sha256, Ed25519, RandomBytes<DefaultRng>>,
}

/// `recrypt`'s `EncryptedValue`: an encrypted value in the engine's own form.
#[verifier::external_type_specification]
#[verifier::external_body]
pub struct ExEngineValue(EngineValue);

/// `recrypt`'s `TransformKey`: a transform key in the engine's own form.
#[verifier::external_type_specification]
#[verifier::external_body]
pub struct ExEngineTransformKey(EngineTransformKey);

/// Whether `SigningKeypair::from_bytes` accepts the 64 bytes: it does if the
/// public half is the one that belongs to the private half.
pub uninterp spec fn signing_key_pair_accepted(key_pair: Seq<u8>) -> bool;

/// The signature that `SigningKeypair::sign` gives of a message.
pub uninterp spec fn ed25519_signature(key_pair: Seq<u8>, message: Seq<u8>) -> Seq<u8>;

/// What `PublicSigningKey::verify` says of a signature.
pub uninterp spec fn ed25519_signature_valid(
    public_key: Seq<u8>,
    message: Seq<u8>,
    signature: Seq<u8>,
) -> bool;

/// The public key that `compute_public_key` derives, if the point is one.
pub uninterp spec fn derived_public_key(private_key: Seq<u8>) -> Option<PublicKeyRecord>;

/// The symmetric key that `derive_symmetric_key` derives from a plaintext.
pub uninterp spec fn derived_symmetric_key(plaintext: Seq<u8>) -> Seq<u8>;

/// Whether `PublicKey::new` accepts the coordinates as a point of the curve.
pub uninterp spec fn public_key_accepted(public_key: PublicKeyRecord) -> bool;

/// Whether `HashedValue::new` accepts the 128 bytes as a point of the
/// twisted curve.
pub uninterp spec fn hashed_value_accepted(hashed_temp_key: Seq<u8>) -> bool;

/// What `schnorr_verify` says of a signature under a public key that the
/// engine accepts.
pub uninterp spec fn schnorr_signature_valid(
    public_key: PublicKeyRecord,
    augmenting_key: Option<Seq<u8>>,
    message: Seq<u8>,
    signature: Seq<u8>,
) -> bool;

/// The sum of two points that `PublicKey::augment` gives, if both are points
/// and their sum is one.
pub uninterp spec fn augmented_public_key(
    current: PublicKeyRecord,
    other: PublicKeyRecord,
) -> Option<PublicKeyRecord>;

/// The engine's form of a transform key, as `TransformKey::new` builds it
/// from the fields, if the engine accepts the two points and the hashed temp
/// key.
pub uninterp spec fn staged_transform_key(key: TransformKeyRecord) -> Option<EngineTransformKey>;

/// The fields that a transform key of the engine hands out.
pub uninterp spec fn transform_key_fields(staged: EngineTransformKey) -> TransformKeyRecord;

/// What `TransformKey::augment` returns: the augmented key, or that it has
/// none. The outer `None` stands where it does not return at all: where the
/// private key takes the whole hashed temp key away, the point that is left
/// is none, and the engine stops on it.
pub uninterp spec fn augmented_transform_key(
    staged: EngineTransformKey,
    private_key: Seq<u8>,
) -> Option<Option<EngineTransformKey>>;

/// The engine's form of an encrypted value, built field by field, if the
/// engine accepts every point in it.
pub uninterp spec fn staged_value(value: EncryptedValueRecord) -> Option<EngineValue>;

/// The public signing key that an encrypted value of the engine names.
pub uninterp spec fn value_signer(staged: EngineValue) -> Seq<u8>;

/// The blocks that an encrypted value of the engine hands out, oldest hop
/// first: none for a value of the variant `EncryptedOnceValue`.
pub uninterp spec fn value_blocks(staged: EngineValue) -> Seq<TransformBlockRecord>;

/// The plaintext that `decrypt` recovers, if the value is authentic and the
/// key is the one it was encrypted or transformed to.
pub uninterp spec fn decrypted(staged: EngineValue, private_key: Seq<u8>) -> Option<Seq<u8>>;

/// `Recrypt::new`: an engine whose randomness is seeded from the system.
#[verifier::external_body]
pub(crate) fn engine_new() -> RecryptApi256 {
    RecryptApi256 { api: Recrypt::new() }
}

/// `KeyGenOps::generate_key_pair`: a random private key and the public key
/// that `compute_public_key` derives from it. `None` if the engine fails.
#[verifier::external_body]
pub(crate) fn engine_generate_key_pair(engine: &RecryptApi256) -> (r: Option<
    (PrivateKey, PublicKey),
>)
    ensures
        r matches Some((private_key, public_key)) ==> derived_public_key(private_key.bytes@)
            == Some(public_key@),
{
    let (private_key, public_key) = engine.api.generate_key_pair().ok()?;
    let (x, y) = public_key.bytes_x_y();
    Some((PrivateKey { bytes: *private_key.bytes() }, PublicKey { x: *x, y: *y }))
}

/// `Ed25519Ops::generate_ed25519_key_pair`: a random signing key pair. The
/// public key is the second half of the 64 bytes, and it is the one that
/// belongs to the first half, so that `SigningKeypair::from_bytes` accepts
/// the pair.
#[verifier::external_body]
pub(crate) fn engine_generate_ed25519_key_pair(engine: &RecryptApi256) -> (r: SigningKeyPair)
    ensures
        r.public_key@ == r.private_key@.subrange(32, 64),
        signing_key_pair_accepted(r.private_key@),
{
    let pair = engine.api.generate_ed25519_key_pair();
    SigningKeyPair { private_key: *pair.bytes(), public_key: *pair.public_key().bytes() }
}

/// `SigningKeypair::sign` on the key pair that `SigningKeypair::from_bytes`
/// makes of the 64 bytes. `None` if it makes none.
#[verifier::external_body]
pub(crate) fn engine_ed25519_sign(key_pair: &[u8; 64], message: &[u8]) -> (r: Option<[u8; 64]>)
    ensures
        match r {
            Some(signature) => signing_key_pair_accepted(key_pair@) && signature@
                == ed25519_signature(key_pair@, message@),
            None => !signing_key_pair_accepted(key_pair@),
        },
{
    let pair = SigningKeypair::from_bytes(key_pair).ok()?;
    Some(*pair.sign(&message).bytes())
}

/// `PublicSigningKey::verify`. A signature that does not match is `false`,
/// and so is a public key that is none.
#[verifier::external_body]
pub(crate) fn engine_ed25519_verify(
    public_key: &[u8; 32],
    message: &[u8],
    signature: &[u8; 64],
) -> (r: bool)
    ensures
        r == ed25519_signature_valid(public_key@, message@, signature@),
{
    PublicSigningKey::new(*public_key).verify(&message, &Ed25519Signature::new(*signature))
}

/// `SigningKeypair::public_key` on the key pair that
/// `SigningKeypair::from_bytes` makes of the 64 bytes: their second half.
/// `None` if it makes none.
#[verifier::external_body]
pub(crate) fn engine_ed25519_public_key(key_pair: &[u8; 64]) -> (r: Option<[u8; 32]>)
    ensures
        match r {
            Some(public_key) => signing_key_pair_accepted(key_pair@) && public_key@
                == key_pair@.subrange(32, 64),
            None => !signing_key_pair_accepted(key_pair@),
        },
{
    let pair = SigningKeypair::from_bytes(key_pair).ok()?;
    Some(*pair.public_key().bytes())
}

/// `CryptoOps::gen_plaintext`: a random plaintext.
#[verifier::external_body]
pub(crate) fn engine_generate_plaintext(engine: &RecryptApi256) -> Plaintext {
    Plaintext { bytes: *engine.api.gen_plaintext().bytes() }
}

/// `KeyGenOps::compute_public_key`.
#[verifier::external_body]
pub(crate) fn engine_compute_public_key(engine: &RecryptApi256, private_key: &PrivateKey) -> (r:
    Option<PublicKey>)
    ensures
        match r {
            Some(public_key) => derived_public_key(private_key.bytes@) == Some(public_key@),
            None => derived_public_key(private_key.bytes@) is None,
        },
{
    let public_key = engine.api.compute_public_key(&EnginePrivateKey::new(private_key.bytes)).ok()?;
    let (x, y) = public_key.bytes_x_y();
    Some(PublicKey { x: *x, y: *y })
}

/// `CryptoOps::derive_symmetric_key`.
#[verifier::external_body]
pub(crate) fn engine_derive_symmetric_key(engine: &RecryptApi256, plaintext: &Plaintext) -> (r:
    [u8; 32])
    ensures
        r@ == derived_symmetric_key(plaintext.bytes@),
{
    *engine.api.derive_symmetric_key(&EnginePlaintext::new(plaintext.bytes)).bytes()
}

/// `PublicKey::new`: whether the engine takes the coordinates for a point of
/// the curve.
#[verifier::external_body]
pub(crate) fn engine_accepts_public_key(public_key: &PublicKey) -> (r: bool)
    ensures
        r == public_key_accepted(public_key@),
{
    EnginePublicKey::new((public_key.x, public_key.y)).is_ok()
}

/// `HashedValue::new`: whether the engine takes the 128 bytes for a point of
/// the twisted curve.
#[verifier::external_body]
pub(crate) fn engine_accepts_hashed_value(hashed_temp_key: &[u8; 128]) -> (r: bool)
    ensures
        r == hashed_value_accepted(hashed_temp_key@),
{
    HashedValue::new(*hashed_temp_key).is_ok()
}

/// `SchnorrOps::schnorr_sign` with the public key that `PublicKey::new`
/// makes of the coordinates. There is a signature exactly if it makes one;
/// which signature it is depends on the engine's randomness.
#[verifier::external_body]
pub(crate) fn engine_schnorr_sign(
    engine: &RecryptApi256,
    private_key: &PrivateKey,
    public_key: &PublicKey,
    message: &[u8],
) -> (r: Option<[u8; 64]>)
    ensures
        r is Some <==> public_key_accepted(public_key@),
{
    let point = EnginePublicKey::new((public_key.x, public_key.y)).ok()?;
    let key = EnginePrivateKey::new(private_key.bytes);
    Some(*engine.api.schnorr_sign(&key, &point, &message).bytes())
}

/// `SchnorrOps::schnorr_verify` with the public key that `PublicKey::new`
/// makes of the coordinates. `None` if it makes none.
#[verifier::external_body]
pub(crate) fn engine_schnorr_verify(
    engine: &RecryptApi256,
    public_key: &PublicKey,
    augmenting_key: &Option<PrivateKey>,
    message: &[u8],
    signature: &[u8; 64],
) -> (r: Option<bool>)
    ensures
        match r {
            Some(valid) => public_key_accepted(public_key@) && valid == schnorr_signature_valid(
                public_key@,
                match *augmenting_key {
                    Some(key) => Some(key.bytes@),
                    None => None,
                },
                message@,
                signature@,
            ),
            None => !public_key_accepted(public_key@),
        },
{
    let point = EnginePublicKey::new((public_key.x, public_key.y)).ok()?;
    let key = augmenting_key.map(|key| EnginePrivateKey::new(key.bytes));
    let signature = SchnorrSignature::new(*signature);
    Some(engine.api.schnorr_verify(&point, key.as_ref(), &message, signature))
}

/// `PublicKey::augment` on the public keys that `PublicKey::new` makes of
/// the coordinates.
#[verifier::external_body]
pub(crate) fn engine_augment_public_key(current: &PublicKey, other: &PublicKey) -> (r: Option<
    PublicKey,
>)
    ensures
        match r {
            Some(sum) => augmented_public_key(current@, other@) == Some(sum@),
            None => augmented_public_key(current@, other@) is None,
        },
{
    let current = EnginePublicKey::new((current.x, current.y)).ok()?;
    let other = EnginePublicKey::new((other.x, other.y)).ok()?;
    let sum = current.augment(&other).ok()?;
    let (x, y) = sum.bytes_x_y();
    Some(PublicKey { x: *x, y: *y })
}

/// `PrivateKey::augment_plus`: both keys are reduced by the field prime and
/// then by the group order, and their sum by the group order; it comes as 32
/// bytes, the most significant first.
#[verifier::external_body]
pub(crate) fn engine_add_private_keys(first: &PrivateKey, second: &PrivateKey) -> (r: PrivateKey)
    ensures
        r.bytes@ == private_key_sum(first.bytes@, second.bytes@),
{
    let sum = EnginePrivateKey::new(first.bytes).augment_plus(&EnginePrivateKey::new(second.bytes));
    PrivateKey { bytes: *sum.bytes() }
}

/// `PrivateKey::augment_minus`: both keys are reduced by the field prime and
/// then by the group order, and their difference by the group order; it
/// comes as 32 bytes, the most significant first.
#[verifier::external_body]
pub(crate) fn engine_subtract_private_keys(first: &PrivateKey, second: &PrivateKey) -> (r:
    PrivateKey)
    ensures
        r.bytes@ == private_key_difference(first.bytes@, second.bytes@),
{
    let difference = EnginePrivateKey::new(first.bytes).augment_minus(
        &EnginePrivateKey::new(second.bytes),
    );
    PrivateKey { bytes: *difference.bytes() }
}

/// `TransformKey::new` on what `PublicKey::new`, `EncryptedTempKey::new`,
/// `HashedValue::new`, `PublicSigningKey::new` and `Ed25519Signature::new`
/// make of the fields. There is a key exactly if the engine accepts the two
/// points and the hashed temp key. The key keeps the hashed temp key, the
/// public signing key and the signature as they were given. The coordinates
/// of the two points and the twelve field elements of the encrypted temp key
/// it hands out reduced by the field prime, each as 32 bytes.
#[verifier::external_body]
pub(crate) fn engine_stage_transform_key(key: &TransformKey) -> (r: Option<EngineTransformKey>)
    ensures
        r == staged_transform_key(key@),
        r is Some <==> transform_key_accepted(key@),
        r matches Some(staged) ==> transform_key_fields(staged) == canonical_transform_key(key@)
            && transform_key_fault(transform_key_fields(staged)) is None,
{
    Some(
        EngineTransformKey::new(
            EnginePublicKey::new((key.ephemeral_public_key.x, key.ephemeral_public_key.y)).ok()?,
            EnginePublicKey::new((key.to_public_key.x, key.to_public_key.y)).ok()?,
            EncryptedTempKey::new(key.encrypted_temp_key),
            HashedValue::new(key.hashed_temp_key).ok()?,
            PublicSigningKey::new(key.public_signing_key),
            Ed25519Signature::new(key.signature),
        ),
    )
}

/// The getters of `TransformKey`, each for the field of its name.
#[verifier::external_body]
pub(crate) fn engine_transform_key_fields(staged: &EngineTransformKey) -> (r: TransformKey)
    ensures
        r@ == transform_key_fields(*staged),
{
    let (ephemeral_x, ephemeral_y) = staged.ephemeral_public_key().bytes_x_y();
    let (to_x, to_y) = staged.to_public_key().bytes_x_y();
    TransformKey {
        ephemeral_public_key: PublicKey { x: *ephemeral_x, y: *ephemeral_y },
        to_public_key: PublicKey { x: *to_x, y: *to_y },
        encrypted_temp_key: *staged.encrypted_temp_key().bytes(),
        hashed_temp_key: *staged.hashed_temp_key().bytes(),
        public_signing_key: *staged.public_signing_key().bytes(),
        signature: *staged.signature().bytes(),
    }
}

/// `Hashable::to_bytes` of `TransformKey`: the bytes of the fields that the
/// getters hand out, one after the other, the signature left out.
#[verifier::external_body]
pub(crate) fn engine_transform_key_bytes(staged: &EngineTransformKey) -> (r: Vec<u8>)
    ensures
        r@ == transform_key_signable_bytes(transform_key_fields(*staged)),
{
    staged.to_bytes()
}

/// `TransformKey::augment`. Only the hashed temp key changes: the signature
/// stays the one of the key that was augmented. The engine stops where the
/// private key takes the whole hashed temp key away: such a pair is not to
/// be handed over.
#[verifier::external_body]
pub(crate) fn engine_augment_transform_key(
    staged: &EngineTransformKey,
    private_key: &PrivateKey,
) -> (r: Option<EngineTransformKey>)
    requires
        augmented_transform_key(*staged, private_key.bytes@) is Some,
    ensures
        Some(r) == augmented_transform_key(*staged, private_key.bytes@),
        r matches Some(augmented) ==> transform_key_fields(augmented) == (TransformKeyRecord {
            hashed_temp_key: transform_key_fields(augmented).hashed_temp_key,
            ..transform_key_fields(*staged)
        }),
{
    staged.augment(&EnginePrivateKey::new(private_key.bytes)).ok()
}

/// `KeyGenOps::generate_transform_key` with the public key that
/// `PublicKey::new` and the key pair that `SigningKeypair::from_bytes` make
/// of the bytes, so there is a key only if both make one. The key names the
/// signer: its public signing key is the second half of the key pair.
#[verifier::external_body]
pub(crate) fn engine_generate_transform_key(
    engine: &RecryptApi256,
    from_private_key: &PrivateKey,
    to_public_key: &PublicKey,
    signing_key_pair: &[u8; 64],
) -> (r: Option<EngineTransformKey>)
    ensures
        r matches Some(key) ==> transform_key_fields(key).public_signing_key == Some(
            signing_key_pair@.subrange(32, 64),
        ) && transform_key_fault(transform_key_fields(key)) is None,
        r is Some ==> public_key_accepted(to_public_key@) && signing_key_pair_accepted(
            signing_key_pair@,
        ),
{
    let from = EnginePrivateKey::new(from_private_key.bytes);
    let to = EnginePublicKey::new((to_public_key.x, to_public_key.y)).ok()?;
    let pair = SigningKeypair::from_bytes(signing_key_pair).ok()?;
    engine.api.generate_transform_key(&from, &to, &pair).ok()
}

/// The variant `EncryptedOnceValue` of `EncryptedValue`, of what
/// `PublicKey::new`, `EncryptedMessage::new`, `AuthHash::new`,
/// `PublicSigningKey::new` and `Ed25519Signature::new` make of the fields.
/// There is a value exactly if the engine accepts the ephemeral public key;
/// it has no block.
#[verifier::external_body]
pub(crate) fn engine_stage_once(ciphertext: &SignedCiphertext) -> (r: Option<EngineValue>)
    ensures
        r == staged_value(ciphertext.record(Seq::empty())),
        r is Some <==> encrypted_value_accepted(ciphertext.record(Seq::empty())),
        r matches Some(value) ==> value_blocks(value).len() == 0,
{
    let key = &ciphertext.ephemeral_public_key;
    Some(
        EngineValue::EncryptedOnceValue {
            ephemeral_public_key: EnginePublicKey::new((key.x, key.y)).ok()?,
            encrypted_message: EncryptedMessage::new(ciphertext.encrypted_message),
            auth_hash: AuthHash::new(ciphertext.auth_hash),
            public_signing_key: PublicSigningKey::new(ciphertext.public_signing_key),
            signature: Ed25519Signature::new(ciphertext.signature),
        },
    )
}

/// The variant `TransformedValue` of `EncryptedValue`, of what
/// `PublicKey::new`, `EncryptedMessage::new`, `AuthHash::new`,
/// `PublicSigningKey::new` and `Ed25519Signature::new` make of the fields,
/// with the chain that `NonEmptyVec::try_from` makes of the blocks, each
/// block made by `TransformBlock::new`. There has to be a block: without one
/// the value is of the other variant. There is a value exactly if the engine
/// accepts every point; it has as many blocks as were given.
#[verifier::external_body]
pub(crate) fn engine_stage_transformed(ciphertext: &SignedCiphertext, blocks: &[TransformBlock]) -> (r:
    Option<EngineValue>)
    requires
        blocks@.len() > 0,
    ensures
        r == staged_value(ciphertext.record(blocks@)),
        r is Some <==> encrypted_value_accepted(ciphertext.record(blocks@)),
        r matches Some(value) ==> value_blocks(value).len() == blocks@.len(),
{
    let point = |key: &PublicKey| EnginePublicKey::new((key.x, key.y));
    let hops: Vec<EngineTransformBlock> = blocks.iter().map(|block| EngineTransformBlock::new(
        &point(&block.public_key)?, &EncryptedTempKey::new(block.encrypted_temp_key),
        &point(&block.random_transform_public_key)?,
        &EncryptedTempKey::new(block.random_transform_encrypted_temp_key),
    )).collect::<Result<_, _>>().ok()?;
    Some(EngineValue::TransformedValue {
        ephemeral_public_key: point(&ciphertext.ephemeral_public_key).ok()?,
        encrypted_message: EncryptedMessage::new(ciphertext.encrypted_message),
        auth_hash: AuthHash::new(ciphertext.auth_hash),
        transform_blocks: NonEmptyVec::try_from(&hops).ok()?,
        public_signing_key: PublicSigningKey::new(ciphertext.public_signing_key),
        signature: Ed25519Signature::new(ciphertext.signature),
    })
}

/// The fields that both variants of `EncryptedValue` have, as their getters
/// hand out the bytes.
#[verifier::external_body]
pub(crate) fn engine_value_ciphertext(staged: &EngineValue) -> (r: SignedCiphertext)
    ensures
        r.public_signing_key@ == value_signer(*staged),
{
    let (EngineValue::EncryptedOnceValue {
        ephemeral_public_key, encrypted_message, auth_hash, public_signing_key, signature,
    } | EngineValue::TransformedValue {
        ephemeral_public_key, encrypted_message, auth_hash, public_signing_key, signature, ..
    }) = staged;
    let (x, y) = ephemeral_public_key.bytes_x_y();
    SignedCiphertext {
        ephemeral_public_key: PublicKey { x: *x, y: *y },
        encrypted_message: *encrypted_message.bytes(),
        auth_hash: *auth_hash.bytes(),
        public_signing_key: *public_signing_key.bytes(),
        signature: *signature.bytes(),
    }
}

/// The blocks of an `EncryptedValue` in their order, as `NonEmptyVec::to_vec`
/// and the getters of `TransformBlock` hand them out: none for the variant
/// `EncryptedOnceValue`.
#[verifier::external_body]
pub(crate) fn engine_value_blocks(staged: &EngineValue) -> (r: Vec<TransformBlock>)
    ensures
        block_records(r@) == value_blocks(*staged),
{
    let hops = match staged {
        EngineValue::EncryptedOnceValue { .. } => Vec::new(),
        EngineValue::TransformedValue { transform_blocks, .. } => transform_blocks.to_vec(),
    };
    hops.iter().map(|hop| TransformBlock {
        public_key: PublicKey { x: *hop.public_key().bytes_x_y().0, y: *hop.public_key().bytes_x_y().1 },
        encrypted_temp_key: *hop.encrypted_temp_key().bytes(),
        random_transform_public_key: PublicKey {
            x: *hop.random_transform_public_key().bytes_x_y().0,
            y: *hop.random_transform_public_key().bytes_x_y().1,
        },
        random_transform_encrypted_temp_key: *hop.encrypted_random_transform_temp_key().bytes(),
    }).collect()
}

/// `CryptoOps::encrypt` with the public key that `PublicKey::new` and the
/// key pair that `SigningKeypair::from_bytes` make of the bytes. What comes
/// out depends on the engine's randomness, and there is a value only if
/// both make one. It has no block, and it names the signer: its public
/// signing key is the second half of the key pair.
#[verifier::external_body]
pub(crate) fn engine_encrypt(
    engine: &RecryptApi256,
    plaintext: &Plaintext,
    to_public_key: &PublicKey,
    signing_key_pair: &[u8; 64],
) -> (r: Option<EngineValue>)
    ensures
        r matches Some(value) ==> value_signer(value) == signing_key_pair@.subrange(32, 64)
            && value_blocks(value).len() == 0,
        r is Some ==> public_key_accepted(to_public_key@) && signing_key_pair_accepted(
            signing_key_pair@,
        ),
{
    let to = EnginePublicKey::new((to_public_key.x, to_public_key.y)).ok()?;
    let pair = SigningKeypair::from_bytes(signing_key_pair).ok()?;
    engine.api.encrypt(&EnginePlaintext::new(plaintext.bytes), &to, &pair).ok()
}

/// `CryptoOps::transform` with the key pair that
/// `SigningKeypair::from_bytes` makes of the bytes. What comes out depends
/// on the engine's randomness, and there is a value only if they make a key
/// pair. It has one block more than the value that was handed over, and it
/// names the new signer: its public signing key is the second half of the
/// key pair.
#[verifier::external_body]
pub(crate) fn engine_transform(
    engine: &RecryptApi256,
    staged: EngineValue,
    transform_key: EngineTransformKey,
    signing_key_pair: &[u8; 64],
) -> (r: Option<EngineValue>)
    ensures
        r matches Some(value) ==> value_signer(value) == signing_key_pair@.subrange(32, 64)
            && value_blocks(value).len() == value_blocks(staged).len() + 1,
        r is Some ==> signing_key_pair_accepted(signing_key_pair@),
{
    let pair = SigningKeypair::from_bytes(signing_key_pair).ok()?;
    engine.api.transform(staged, transform_key, &pair).ok()
}

/// `CryptoOps::decrypt`.
#[verifier::external_body]
pub(crate) fn engine_decrypt(engine: &RecryptApi256, staged: EngineValue, private_key: &PrivateKey) -> (r:
    Option<Plaintext>)
    ensures
        match r {
            Some(plaintext) => decrypted(staged, private_key.bytes@) == Some(plaintext.bytes@),
            None => decrypted(staged, private_key.bytes@) is None,
        },
{
    let plaintext = engine.api.decrypt(staged, &EnginePrivateKey::new(private_key.bytes)).ok()?;
    Some(Plaintext { bytes: *plaintext.bytes() })
}

} // verus!
