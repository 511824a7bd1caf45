//! The operations: each one validates what the caller supplies, hands the
//! typed values to the engine, and encodes what comes back. Malformed data is
//! reported before the engine is asked for anything.

use vstd::prelude::*;
use recrypt::api::EncryptedValue as EngineValue;
use crate::engine::augmented_public_key;
use crate::engine::augmented_transform_key;
use crate::engine::decrypted;
use crate::engine::derived_public_key;
use crate::engine::derived_symmetric_key;
use crate::engine::ed25519_signature;
use crate::engine::ed25519_signature_valid;
use crate::engine::engine_add_private_keys;
use crate::engine::engine_augment_public_key;
use crate::engine::engine_augment_transform_key;
use crate::engine::engine_compute_public_key;
use crate::engine::engine_decrypt;
use crate::engine::engine_derive_symmetric_key;
use crate::engine::engine_ed25519_public_key;
use crate::engine::engine_ed25519_sign;
use crate::engine::engine_ed25519_verify;
use crate::engine::engine_encrypt;
use crate::engine::engine_generate_ed25519_key_pair;
use crate::engine::engine_generate_key_pair;
use crate::engine::engine_generate_plaintext;
use crate::engine::engine_generate_transform_key;
use crate::engine::engine_new;
use crate::engine::engine_schnorr_sign;
use crate::engine::engine_schnorr_verify;
use crate::engine::engine_stage_once;
use crate::engine::engine_stage_transform_key;
use crate::engine::engine_stage_transformed;
use crate::engine::engine_subtract_private_keys;
use crate::engine::engine_transform;
use crate::engine::engine_transform_key_bytes;
use crate::engine::engine_transform_key_fields;
use crate::engine::engine_value_blocks;
use crate::engine::engine_value_ciphertext;
use crate::engine::public_key_accepted;
use crate::engine::schnorr_signature_valid;
use crate::engine::signing_key_pair_accepted;
use crate::engine::staged_transform_key;
use crate::engine::staged_value;
use crate::engine::value_blocks;
use crate::engine::transform_key_fields;
pub use crate::engine::RecryptApi256;
use crate::error::Field;
use crate::error::RecryptError;
use crate::error::ValidationError;
use crate::model::transform_key_signable_bytes;
use crate::model::EncryptedValue;
use crate::model::EncryptedValueRecord;
use crate::model::PublicKeyRecord;
use crate::model::SignedCiphertext;
use crate::model::TransformBlock;
use crate::model::TransformChain;
use crate::model::TransformKeyRecord;
use crate::object::EncryptedValueObject;
use crate::object::KeyPairObject;
use crate::object::PublicKeyObject;
use crate::object::SigningKeyPairObject;
use crate::object::TransformKeyObject;
use crate::round_trip::lemma_encrypted_value_round_trip;
use crate::scalar::lemma_reduced_element_stays;
use crate::scalar::lemma_reduced_elements_stay;
use crate::scalar::private_key_difference;
use crate::scalar::private_key_sum;
use crate::util::buffer_to_ed25519_signature;
use crate::util::buffer_to_fixed_32_bytes;
use crate::util::buffer_to_fixed_64_bytes;
use crate::util::buffer_to_plaintext;
use crate::util::buffer_to_private_key;
use crate::util::buffer_to_schnorr_signature;
use crate::util::bytes_to_buffer;
use crate::util::canonical_transform_key;
use crate::util::encrypted_value_accepted;
use crate::util::encrypted_value_fault;
use crate::util::js_object_to_transform_key;
use crate::util::transform_key_accepted;
use crate::util::transform_key_is_canonical;
use crate::util::encrypted_value_to_js_object;
use crate::util::first_fault;
use crate::util::validate_encrypted_value;
use crate::util::validate_public_key;
use crate::util::validate_transform_key;
use crate::util::length_fault;
use crate::util::public_key_fault;
use crate::util::public_key_to_js_object;
use crate::util::transform_key_fault;
use crate::util::transform_key_to_js_object;
use crate::util::validated;

verus! {

/// What the engine handed back, if it handed anything back: else the engine
/// has failed.
pub fn engine_result<T>(outcome: Option<T>) -> (r: Result<T, RecryptError>)
    ensures
        match outcome {
            Some(value) => r == Ok::<T, RecryptError>(value),
            None => r == Err::<T, RecryptError>(RecryptError::EngineFailure),
        },
{
    match outcome {
        Some(value) => Ok(value),
        None => Err(RecryptError::EngineFailure),
    }
}

/// The encrypted value that the engine handed back, put together from its
/// ciphertext and its blocks: encrypted once if there is no block,
/// transformed else.
pub fn encrypted_value_from_engine(ciphertext: SignedCiphertext, blocks: Vec<TransformBlock>) -> (r:
    EncryptedValue)
    ensures
        r.spec_ciphertext() == ciphertext,
        r.spec_blocks() == blocks@,
        r.wf(),
        (r is EncryptedOnce) == (blocks@.len() == 0),
{
    match TransformChain::new(blocks) {
        Some(transform_blocks) => EncryptedValue::Transformed { ciphertext, transform_blocks },
        None => EncryptedValue::EncryptedOnce { ciphertext },
    }
}

/// What is wrong with the arguments of `ed25519_verify`, if anything.
pub open spec fn ed25519_verify_fault(public_signing_key: Seq<u8>, signature: Seq<u8>) -> Option<
    ValidationError,
> {
    first_fault(
        length_fault(public_signing_key, Field::PublicSigningKey, 32),
        length_fault(signature, Field::Signature, 64),
    )
}

/// What is wrong with the arguments of `generate_transform_key` and of
/// `encrypt`, if anything: the public key is looked at first, then the
/// signing key, then the private key or the plaintext.
pub open spec fn sealing_fault(
    to_public_key: PublicKeyRecord,
    private_signing_key: Seq<u8>,
    last: Option<ValidationError>,
) -> Option<ValidationError> {
    first_fault(
        public_key_fault(to_public_key),
        first_fault(length_fault(private_signing_key, Field::PrivateSigningKey, 64), last),
    )
}

/// What is wrong with the arguments of `transform`, if anything.
pub open spec fn transform_fault(
    encrypted_value: EncryptedValueRecord,
    transform_key: TransformKeyRecord,
    private_signing_key: Seq<u8>,
) -> Option<ValidationError> {
    first_fault(
        encrypted_value_fault(encrypted_value),
        first_fault(
            transform_key_fault(transform_key),
            length_fault(private_signing_key, Field::PrivateSigningKey, 64),
        ),
    )
}

/// What is wrong with the arguments of `schnorr_verify`, if anything.
pub open spec fn schnorr_verify_fault(
    public_key: PublicKeyRecord,
    augmented_private_key: Option<Seq<u8>>,
    signature: Seq<u8>,
) -> Option<ValidationError> {
    first_fault(
        public_key_fault(public_key),
        first_fault(
            length_fault(signature, Field::Signature, 64),
            match augmented_private_key {
                Some(key) => length_fault(key, Field::PrivateKey, 32),
                None => None,
            },
        ),
    )
}

/// The bytes of a buffer that may not have been supplied.
pub open spec fn optional_bytes(buffer: Option<&[u8]>) -> Option<Seq<u8>> {
    match buffer {
        Some(bytes) => Some(bytes@),
        None => None,
    }
}

/// The engine's form of an encrypted value: there is one exactly if the
/// engine accepts the value, and it has as many blocks.
fn stage_value(value: &EncryptedValue) -> (r: Option<EngineValue>)
    ensures
        r == staged_value(value@),
        r is Some <==> encrypted_value_accepted(value@),
        r matches Some(staged) ==> value_blocks(staged).len() == value.spec_blocks().len(),
{
    match value {
        EncryptedValue::EncryptedOnce { ciphertext } => engine_stage_once(ciphertext),
        EncryptedValue::Transformed { ciphertext, transform_blocks } => engine_stage_transformed(
            ciphertext,
            transform_blocks.as_slice(),
        ),
    }
}

impl RecryptApi256 {
    /// An engine of its own, independent of every other.
    pub fn new() -> RecryptApi256 {
        engine_new()
    }

    /// A fresh key pair. The public key is the one that `compute_public_key`
    /// derives from the private key. Only the engine can fail.
    pub fn generate_key_pair(&self) -> (r: Result<KeyPairObject, RecryptError>)
        ensures
            match r {
                Ok(pair) => pair.private_key@.len() == 32 && public_key_fault(pair.public_key@)
                    is None && derived_public_key(pair.private_key@) == Some(pair.public_key@),
                Err(e) => e == RecryptError::EngineFailure,
            },
    {
        let (private_key, public_key) = engine_result(engine_generate_key_pair(self))?;
        Ok(
            KeyPairObject {
                private_key: bytes_to_buffer(private_key.bytes.as_slice()),
                public_key: public_key_to_js_object(&public_key),
            },
        )
    }

    /// A fresh signing key pair: 64 bytes of which the second half is the
    /// public key, and a pair that the engine accepts for signing.
    pub fn generate_ed25519_key_pair(&self) -> (r: SigningKeyPairObject)
        ensures
            r.private_key@.len() == 64,
            r.public_key@ == r.private_key@.subrange(32, 64),
            signing_key_pair_accepted(r.private_key@),
    {
        let pair = engine_generate_ed25519_key_pair(self);
        SigningKeyPairObject {
            private_key: bytes_to_buffer(pair.private_key.as_slice()),
            public_key: bytes_to_buffer(pair.public_key.as_slice()),
        }
    }

    /// The Ed25519 signature of a message of any length. The engine fails on
    /// a key pair whose halves do not belong together.
    pub fn ed25519_sign(&self, private_signing_key: &[u8], message: &[u8]) -> (r: Result<
        Vec<u8>,
        RecryptError,
    >)
        ensures
            match r {
                Ok(signature) => length_fault(
                    private_signing_key@,
                    Field::PrivateSigningKey,
                    64,
                ) is None && signing_key_pair_accepted(private_signing_key@) && signature@
                    == ed25519_signature(private_signing_key@, message@) && signature@.len() == 64,
                Err(RecryptError::Validation(e)) => length_fault(
                    private_signing_key@,
                    Field::PrivateSigningKey,
                    64,
                ) == Some(e),
                Err(RecryptError::EngineFailure) => length_fault(
                    private_signing_key@,
                    Field::PrivateSigningKey,
                    64,
                ) is None && !signing_key_pair_accepted(private_signing_key@),
            },
    {
        let key_pair = validated(
            buffer_to_fixed_64_bytes(private_signing_key, Field::PrivateSigningKey),
        )?;
        let signature = engine_result(engine_ed25519_sign(&key_pair, message))?;
        Ok(bytes_to_buffer(signature.as_slice()))
    }

    /// Whether a signature is the one of a message under a public signing
    /// key. A signature that does not match is no failure: the answer is
    /// `false`.
    pub fn ed25519_verify(
        &self,
        public_signing_key: &[u8],
        message: &[u8],
        signature: &[u8],
    ) -> (r: Result<bool, RecryptError>)
        ensures
            match ed25519_verify_fault(public_signing_key@, signature@) {
                Some(e) => r == Err::<bool, RecryptError>(RecryptError::Validation(e)),
                None => r == Ok::<bool, RecryptError>(
                    ed25519_signature_valid(public_signing_key@, message@, signature@),
                ),
            },
    {
        let public_key = validated(
            buffer_to_fixed_32_bytes(public_signing_key, Field::PublicSigningKey),
        )?;
        let signature = validated(buffer_to_ed25519_signature(signature))?;
        Ok(engine_ed25519_verify(&public_key, message, &signature))
    }

    /// The public half of a signing key pair: the second half of its 64
    /// bytes. The engine fails on a key pair whose halves do not belong
    /// together.
    pub fn compute_ed25519_public_key(&self, private_signing_key: &[u8]) -> (r: Result<
        Vec<u8>,
        RecryptError,
    >)
        ensures
            match r {
                Ok(public_key) => length_fault(
                    private_signing_key@,
                    Field::PrivateSigningKey,
                    64,
                ) is None && signing_key_pair_accepted(private_signing_key@) && public_key@
                    == private_signing_key@.subrange(32, 64),
                Err(RecryptError::Validation(e)) => length_fault(
                    private_signing_key@,
                    Field::PrivateSigningKey,
                    64,
                ) == Some(e),
                Err(RecryptError::EngineFailure) => length_fault(
                    private_signing_key@,
                    Field::PrivateSigningKey,
                    64,
                ) is None && !signing_key_pair_accepted(private_signing_key@),
            },
    {
        let key_pair = validated(
            buffer_to_fixed_64_bytes(private_signing_key, Field::PrivateSigningKey),
        )?;
        let public_key = engine_result(engine_ed25519_public_key(&key_pair))?;
        Ok(bytes_to_buffer(public_key.as_slice()))
    }

    /// A fresh plaintext of 384 bytes.
    pub fn generate_plaintext(&self) -> (r: Vec<u8>)
        ensures
            r@.len() == 384,
    {
        let plaintext = engine_generate_plaintext(self);
        bytes_to_buffer(plaintext.bytes.as_slice())
    }

    /// The public key of a private key. The engine fails if the point that
    /// it derives is none.
    pub fn compute_public_key(&self, private_key: &[u8]) -> (r: Result<
        PublicKeyObject,
        RecryptError,
    >)
        ensures
            match r {
                Ok(public_key) => length_fault(private_key@, Field::PrivateKey, 32) is None
                    && derived_public_key(private_key@) == Some(public_key@) && public_key_fault(
                    public_key@,
                ) is None,
                Err(RecryptError::Validation(e)) => length_fault(
                    private_key@,
                    Field::PrivateKey,
                    32,
                ) == Some(e),
                Err(RecryptError::EngineFailure) => length_fault(
                    private_key@,
                    Field::PrivateKey,
                    32,
                ) is None && derived_public_key(private_key@) is None,
            },
    {
        let private_key = validated(buffer_to_private_key(private_key))?;
        let public_key = engine_result(engine_compute_public_key(self, &private_key))?;
        Ok(public_key_to_js_object(&public_key))
    }

    /// The 32-byte symmetric key that a plaintext stands for.
    pub fn derive_symmetric_key(&self, plaintext: &[u8]) -> (r: Result<Vec<u8>, RecryptError>)
        ensures
            match r {
                Ok(key) => length_fault(plaintext@, Field::Plaintext, 384) is None && key@
                    == derived_symmetric_key(plaintext@) && key@.len() == 32,
                Err(e) => length_fault(plaintext@, Field::Plaintext, 384) matches Some(fault)
                    && e == RecryptError::Validation(fault),
            },
    {
        let plaintext = validated(buffer_to_plaintext(plaintext))?;
        let key = engine_derive_symmetric_key(self, &plaintext);
        Ok(bytes_to_buffer(key.as_slice()))
    }

    /// A transform key from the holder of `from_private_key` to
    /// `to_public_key`, signed with the signing key pair, whose public half
    /// it names. Which key it is depends on the engine's randomness. The
    /// engine fails if the public key is no point of the curve or the halves
    /// of the signing key pair do not belong together.
    pub fn generate_transform_key(
        &self,
        from_private_key: &[u8],
        to_public_key: &PublicKeyObject,
        private_signing_key: &[u8],
    ) -> (r: Result<TransformKeyObject, RecryptError>)
        ensures
            match r {
                Ok(key) => sealing_fault(
                    to_public_key@,
                    private_signing_key@,
                    length_fault(from_private_key@, Field::PrivateKey, 32),
                ) is None && public_key_accepted(to_public_key@) && signing_key_pair_accepted(
                    private_signing_key@,
                ) && transform_key_fault(key@) is None && key@.public_signing_key == Some(
                    private_signing_key@.subrange(32, 64),
                ),
                Err(RecryptError::Validation(e)) => sealing_fault(
                    to_public_key@,
                    private_signing_key@,
                    length_fault(from_private_key@, Field::PrivateKey, 32),
                ) == Some(e),
                Err(RecryptError::EngineFailure) => sealing_fault(
                    to_public_key@,
                    private_signing_key@,
                    length_fault(from_private_key@, Field::PrivateKey, 32),
                ) is None,
            },
    {
        let to_public_key = validated(validate_public_key(to_public_key))?;
        let signing_key_pair = validated(
            buffer_to_fixed_64_bytes(private_signing_key, Field::PrivateSigningKey),
        )?;
        let from_private_key = validated(buffer_to_private_key(from_private_key))?;
        let staged = engine_result(
            engine_generate_transform_key(
                self,
                &from_private_key,
                &to_public_key,
                &signing_key_pair,
            ),
        )?;
        let key = engine_transform_key_fields(&staged);
        Ok(transform_key_to_js_object(&key))
    }

    /// The plaintext encrypted to `to_public_key` and signed with the
    /// signing key pair, whose public half the value names: a value that was
    /// encrypted once, so without a block. Which value it is depends on the
    /// engine's randomness. The engine fails if the public key is no point of
    /// the curve or the halves of the signing key pair do not belong
    /// together.
    pub fn encrypt(
        &self,
        plaintext: &[u8],
        to_public_key: &PublicKeyObject,
        private_signing_key: &[u8],
    ) -> (r: Result<EncryptedValueObject, RecryptError>)
        ensures
            match r {
                Ok(value) => sealing_fault(
                    to_public_key@,
                    private_signing_key@,
                    length_fault(plaintext@, Field::Plaintext, 384),
                ) is None && public_key_accepted(to_public_key@) && signing_key_pair_accepted(
                    private_signing_key@,
                ) && encrypted_value_fault(value@) is None && value@.transform_blocks->0.len()
                    == 0 && value@.public_signing_key == Some(
                    private_signing_key@.subrange(32, 64),
                ),
                Err(RecryptError::Validation(e)) => sealing_fault(
                    to_public_key@,
                    private_signing_key@,
                    length_fault(plaintext@, Field::Plaintext, 384),
                ) == Some(e),
                Err(RecryptError::EngineFailure) => sealing_fault(
                    to_public_key@,
                    private_signing_key@,
                    length_fault(plaintext@, Field::Plaintext, 384),
                ) is None,
            },
    {
        let to_public_key = validated(validate_public_key(to_public_key))?;
        let signing_key_pair = validated(
            buffer_to_fixed_64_bytes(private_signing_key, Field::PrivateSigningKey),
        )?;
        let plaintext = validated(buffer_to_plaintext(plaintext))?;
        let staged = engine_result(
            engine_encrypt(self, &plaintext, &to_public_key, &signing_key_pair),
        )?;
        let value = encrypted_value_from_engine(
            engine_value_ciphertext(&staged),
            engine_value_blocks(&staged),
        );
        proof {
            lemma_encrypted_value_round_trip(value, value);
        }
        Ok(encrypted_value_to_js_object(&value))
    }

    /// The encrypted value taken one hop further with a transform key, and
    /// signed anew, as a whole, with the proxy's signing key pair, whose
    /// public half the value names from then on: a transformed value with
    /// exactly one block more. Which value it is depends on the engine's
    /// randomness. The engine fails if it does not accept the value, the
    /// transform key or the signing key pair, or if the value or the
    /// transform key is not authentic.
    pub fn transform(
        &self,
        encrypted_value: &EncryptedValueObject,
        transform_key: &TransformKeyObject,
        private_signing_key: &[u8],
    ) -> (r: Result<EncryptedValueObject, RecryptError>)
        ensures
            match r {
                Ok(value) => transform_fault(
                    encrypted_value@,
                    transform_key@,
                    private_signing_key@,
                ) is None && encrypted_value_accepted(encrypted_value@) && transform_key_accepted(
                    transform_key@,
                ) && signing_key_pair_accepted(private_signing_key@) && encrypted_value_fault(
                    value@,
                ) is None && value@.transform_blocks->0.len()
                    == encrypted_value@.transform_blocks->0.len() + 1
                    && value@.public_signing_key == Some(private_signing_key@.subrange(32, 64)),
                Err(RecryptError::Validation(e)) => transform_fault(
                    encrypted_value@,
                    transform_key@,
                    private_signing_key@,
                ) == Some(e),
                Err(RecryptError::EngineFailure) => transform_fault(
                    encrypted_value@,
                    transform_key@,
                    private_signing_key@,
                ) is None,
            },
    {
        let given = validated(validate_encrypted_value(encrypted_value))?;
        let transform_key = validated(validate_transform_key(transform_key))?;
        let signing_key_pair = validated(
            buffer_to_fixed_64_bytes(private_signing_key, Field::PrivateSigningKey),
        )?;
        let staged = engine_result(stage_value(&given))?;
        let staged_key = engine_result(engine_stage_transform_key(&transform_key))?;
        let transformed = engine_result(
            engine_transform(self, staged, staged_key, &signing_key_pair),
        )?;
        let value = encrypted_value_from_engine(
            engine_value_ciphertext(&transformed),
            engine_value_blocks(&transformed),
        );
        proof {
            lemma_encrypted_value_round_trip(value, value);
        }
        Ok(encrypted_value_to_js_object(&value))
    }

    /// The plaintext of an encrypted value, for the private key that it was
    /// encrypted or last transformed to. The engine fails if it does not
    /// accept the value, if the value is not authentic or if the key is
    /// another: nothing is handed back then.
    pub fn decrypt(&self, encrypted_value: &EncryptedValueObject, private_key: &[u8]) -> (r:
        Result<Vec<u8>, RecryptError>)
        ensures
            match r {
                Ok(plaintext) => decrypt_fault(encrypted_value@, private_key@) is None
                    && encrypted_value_accepted(encrypted_value@) && recovered_plaintext(
                    encrypted_value@,
                    private_key@,
                ) == Some(plaintext@) && plaintext@.len() == 384,
                Err(RecryptError::Validation(e)) => decrypt_fault(encrypted_value@, private_key@)
                    == Some(e),
                Err(RecryptError::EngineFailure) => decrypt_fault(encrypted_value@, private_key@)
                    is None && recovered_plaintext(encrypted_value@, private_key@) is None,
            },
    {
        let given = validated(validate_encrypted_value(encrypted_value))?;
        let private_key = validated(buffer_to_private_key(private_key))?;
        let staged = engine_result(stage_value(&given))?;
        let plaintext = engine_result(engine_decrypt(self, staged, &private_key))?;
        Ok(bytes_to_buffer(plaintext.bytes.as_slice()))
    }

    /// A Schnorr signature of a message, bound to a public key. The engine
    /// fails exactly if the public key is no point of the curve; which
    /// signature it is depends on the engine's randomness.
    pub fn schnorr_sign(
        &self,
        private_key: &[u8],
        public_key: &PublicKeyObject,
        message: &[u8],
    ) -> (r: Result<Vec<u8>, RecryptError>)
        ensures
            match r {
                Ok(signature) => schnorr_sign_fault(public_key@, private_key@) is None
                    && public_key_accepted(public_key@) && signature@.len() == 64,
                Err(RecryptError::Validation(e)) => schnorr_sign_fault(public_key@, private_key@)
                    == Some(e),
                Err(RecryptError::EngineFailure) => schnorr_sign_fault(public_key@, private_key@)
                    is None && !public_key_accepted(public_key@),
            },
    {
        let public_key = validated(validate_public_key(public_key))?;
        let private_key = validated(buffer_to_private_key(private_key))?;
        let signature = engine_result(
            engine_schnorr_sign(self, &private_key, &public_key, message),
        )?;
        Ok(bytes_to_buffer(signature.as_slice()))
    }

    /// Whether a Schnorr signature is the one of a message under a public
    /// key. If the public key was augmented, the private key that it was
    /// augmented with has to be given, and enters the check; without it the
    /// key is taken as it is. A signature that does not match is no failure:
    /// the answer is `false`. The engine fails if the public key is no point
    /// of the curve.
    pub fn schnorr_verify(
        &self,
        public_key: &PublicKeyObject,
        augmented_private_key: Option<&[u8]>,
        message: &[u8],
        signature: &[u8],
    ) -> (r: Result<bool, RecryptError>)
        ensures
            match schnorr_verify_fault(
                public_key@,
                optional_bytes(augmented_private_key),
                signature@,
            ) {
                Some(e) => r == Err::<bool, RecryptError>(RecryptError::Validation(e)),
                None => if public_key_accepted(public_key@) {
                    r == Ok::<bool, RecryptError>(
                        schnorr_signature_valid(
                            public_key@,
                            optional_bytes(augmented_private_key),
                            message@,
                            signature@,
                        ),
                    )
                } else {
                    r == Err::<bool, RecryptError>(RecryptError::EngineFailure)
                },
            },
    {
        let public_key = validated(validate_public_key(public_key))?;
        let signature = validated(buffer_to_schnorr_signature(signature))?;
        let augmenting_key = match augmented_private_key {
            Some(buffer) => Some(validated(buffer_to_private_key(buffer))?),
            None => None,
        };
        let valid = engine_result(
            engine_schnorr_verify(self, &public_key, &augmenting_key, message, &signature),
        )?;
        Ok(valid)
    }
}

/// What is wrong with the arguments of `decrypt`, if anything.
pub open spec fn decrypt_fault(encrypted_value: EncryptedValueRecord, private_key: Seq<u8>) -> Option<
    ValidationError,
> {
    first_fault(
        encrypted_value_fault(encrypted_value),
        length_fault(private_key, Field::PrivateKey, 32),
    )
}

/// What is wrong with the arguments of `schnorr_sign`, if anything.
pub open spec fn schnorr_sign_fault(public_key: PublicKeyRecord, private_key: Seq<u8>) -> Option<
    ValidationError,
> {
    first_fault(public_key_fault(public_key), length_fault(private_key, Field::PrivateKey, 32))
}

/// What is wrong with the arguments of `augment_transform_key_256`, if
/// anything.
pub open spec fn augment_transform_key_fault(
    transform_key: TransformKeyRecord,
    private_key: Seq<u8>,
) -> Option<ValidationError> {
    first_fault(
        transform_key_fault(transform_key),
        length_fault(private_key, Field::PrivateKey, 32),
    )
}

/// The plaintext that the engine recovers from an encrypted value with a
/// private key, if it accepts the value and recovers one.
pub open spec fn recovered_plaintext(
    encrypted_value: EncryptedValueRecord,
    private_key: Seq<u8>,
) -> Option<Seq<u8>> {
    match staged_value(encrypted_value) {
        Some(staged) => decrypted(staged, private_key),
        None => None,
    }
}

/// Whether the engine returns from augmenting a transform key with a
/// private key. It does not where the private key takes the whole hashed temp
/// key away; a key that it does not accept is never handed to it.
pub open spec fn augment_returns(transform_key: TransformKeyRecord, private_key: Seq<u8>) -> bool {
    match staged_transform_key(transform_key) {
        Some(staged) => augmented_transform_key(staged, private_key) is Some,
        None => true,
    }
}

/// The fields of the transform key that the engine makes of a transform key
/// and a private key to augment it with, if it accepts the key and makes
/// one.
pub open spec fn augmented_key(transform_key: TransformKeyRecord, private_key: Seq<u8>) -> Option<
    TransformKeyRecord,
> {
    match staged_transform_key(transform_key) {
        Some(staged) => match augmented_transform_key(staged, private_key) {
            Some(Some(augmented)) => Some(transform_key_fields(augmented)),
            _ => None,
        },
        None => None,
    }
}

/// The bytes that the signature of a transform key is over, if the engine
/// accepts the key: the fields as the engine holds them, in their fixed
/// order.
pub open spec fn signable_bytes(transform_key: TransformKeyRecord) -> Option<Seq<u8>> {
    if transform_key_accepted(transform_key) {
        Some(transform_key_signable_bytes(canonical_transform_key(transform_key)))
    } else {
        None
    }
}

/// The bytes that the signature of a transform key is over do not depend on
/// the signature, and neither does whether the engine accepts the key: two
/// keys that differ in their signatures alone have the same bytes.
pub proof fn lemma_signable_bytes_leave_the_signature_out(
    first: TransformKeyRecord,
    second: TransformKeyRecord,
)
    requires
        first == (TransformKeyRecord { signature: first.signature, ..second }),
    ensures
        signable_bytes(first) == signable_bytes(second),
{
}

/// The bytes that the signature of a transform key is over are the fields of
/// the record itself, one after the other in their fixed order, if the key
/// is as the engine holds it: every coordinate and every field element below
/// the field prime.
pub proof fn lemma_signable_bytes_of_a_canonical_key(key: TransformKeyRecord)
    requires
        transform_key_fault(key) is None,
        transform_key_accepted(key),
        transform_key_is_canonical(key),
    ensures
        signable_bytes(key) == Some(transform_key_signable_bytes(key)),
{
    lemma_canonical_key_stays(key);
}

/// A transform key that is as the engine holds it is handed back as it is.
pub proof fn lemma_canonical_key_stays(key: TransformKeyRecord)
    requires
        transform_key_fault(key) is None,
        transform_key_is_canonical(key),
    ensures
        canonical_transform_key(key) == key,
{
    let ephemeral = key.ephemeral_public_key->0;
    let to = key.to_public_key->0;
    lemma_reduced_element_stays(ephemeral.x->0);
    lemma_reduced_element_stays(ephemeral.y->0);
    lemma_reduced_element_stays(to.x->0);
    lemma_reduced_element_stays(to.y->0);
    lemma_reduced_elements_stay(key.encrypted_temp_key->0);
}

/// The bytes that the signature of a transform key is over are 672: two
/// public keys of two coordinates of 32 bytes, an encrypted temp key of 384, a
/// hashed temp key of 128 and a public signing key of 32.
pub proof fn lemma_signable_bytes_of_a_key_in_order(key: TransformKeyRecord)
    requires
        transform_key_fault(key) is None,
    ensures
        transform_key_signable_bytes(key).len() == 672,
{
}

/// What is wrong with two private keys, if anything.
pub open spec fn private_keys_fault(first: Seq<u8>, second: Seq<u8>) -> Option<ValidationError> {
    first_fault(
        length_fault(first, Field::PrivateKey, 32),
        length_fault(second, Field::PrivateKey, 32),
    )
}

/// The transform key augmented with a private key. Only the hashed temp key
/// changes: the signature and the public signing key stay the record's own,
/// and the signature is not made anew, so whoever needs the augmented key to
/// be authentic has to sign its bytes again. The engine fails if it does not
/// accept the key. It stops where the private key takes the whole hashed temp
/// key away: such a pair is not to be handed over.
pub fn augment_transform_key_256(transform_key: &TransformKeyObject, private_key: &[u8]) -> (r:
    Result<TransformKeyObject, RecryptError>)
    requires
        augment_transform_key_fault(transform_key@, private_key@) is None ==> augment_returns(
            transform_key@,
            private_key@,
        ),
    ensures
        match r {
            Ok(key) => augment_transform_key_fault(transform_key@, private_key@) is None
                && transform_key_accepted(transform_key@) && augmented_key(
                transform_key@,
                private_key@,
            ) == Some(key@) && key@ == (TransformKeyRecord {
                hashed_temp_key: key@.hashed_temp_key,
                ..canonical_transform_key(transform_key@)
            }) && key@.signature == transform_key@.signature && key@.public_signing_key
                == transform_key@.public_signing_key && transform_key_fault(key@) is None,
            Err(RecryptError::Validation(e)) => augment_transform_key_fault(
                transform_key@,
                private_key@,
            ) == Some(e),
            Err(RecryptError::EngineFailure) => augment_transform_key_fault(
                transform_key@,
                private_key@,
            ) is None && augmented_key(transform_key@, private_key@) is None,
        },
{
    let given = validated(validate_transform_key(transform_key))?;
    let private_key = validated(buffer_to_private_key(private_key))?;
    let staged = engine_result(engine_stage_transform_key(&given))?;
    let augmented = engine_result(engine_augment_transform_key(&staged, &private_key))?;
    let key = engine_transform_key_fields(&augmented);
    Ok(transform_key_to_js_object(&key))
}

/// The sum of two public keys. The engine fails if one of them is no point
/// of the curve, or their sum is none.
pub fn augment_public_key_256(current: &PublicKeyObject, other: &PublicKeyObject) -> (r: Result<
    PublicKeyObject,
    RecryptError,
>)
    ensures
        match r {
            Ok(sum) => first_fault(public_key_fault(current@), public_key_fault(other@)) is None
                && augmented_public_key(current@, other@) == Some(sum@) && public_key_fault(sum@)
                is None,
            Err(RecryptError::Validation(e)) => first_fault(
                public_key_fault(current@),
                public_key_fault(other@),
            ) == Some(e),
            Err(RecryptError::EngineFailure) => first_fault(
                public_key_fault(current@),
                public_key_fault(other@),
            ) is None && augmented_public_key(current@, other@) is None,
        },
{
    let current = validated(validate_public_key(current))?;
    let other = validated(validate_public_key(other))?;
    let sum = engine_result(engine_augment_public_key(&current, &other))?;
    Ok(public_key_to_js_object(&sum))
}

/// The bytes that the signature of a transform key is over: the fields as
/// the engine holds them, one after the other in their fixed order, the
/// signature left out. They are 672. The hashed temp key and the public
/// signing key are in them as the record has them; the two public keys and
/// the encrypted temp key are reduced. The engine fails if it does not accept
/// the key.
pub fn transform_key_to_bytes_256(transform_key: &TransformKeyObject) -> (r: Result<
    Vec<u8>,
    RecryptError,
>)
    ensures
        match r {
            Ok(bytes) => transform_key_fault(transform_key@) is None && signable_bytes(
                transform_key@,
            ) == Some(bytes@) && bytes@.len() == 672,
            Err(RecryptError::Validation(e)) => transform_key_fault(transform_key@) == Some(e),
            Err(RecryptError::EngineFailure) => transform_key_fault(transform_key@) is None
                && signable_bytes(transform_key@) is None,
        },
{
    let given = js_object_to_transform_key(transform_key)?;
    let staged = engine_result(engine_stage_transform_key(&given))?;
    let bytes = engine_transform_key_bytes(&staged);
    proof {
        lemma_signable_bytes_of_a_key_in_order(transform_key_fields(staged));
    }
    Ok(bytes)
}

/// The sum of two private keys, as key rotation needs it.
pub fn add_private_keys(first: &[u8], second: &[u8]) -> (r: Result<Vec<u8>, RecryptError>)
    ensures
        match r {
            Ok(sum) => private_keys_fault(first@, second@) is None && sum@ == private_key_sum(
                first@,
                second@,
            ) && sum@.len() == 32,
            Err(e) => private_keys_fault(first@, second@) matches Some(fault) && e
                == RecryptError::Validation(fault),
        },
{
    let first = validated(buffer_to_private_key(first))?;
    let second = validated(buffer_to_private_key(second))?;
    let sum = engine_add_private_keys(&first, &second);
    Ok(bytes_to_buffer(sum.bytes.as_slice()))
}

/// The first private key less the second, as key rotation needs it.
pub fn subtract_private_keys(first: &[u8], second: &[u8]) -> (r: Result<Vec<u8>, RecryptError>)
    ensures
        match r {
            Ok(difference) => private_keys_fault(first@, second@) is None && difference@
                == private_key_difference(first@, second@) && difference@.len() == 32,
            Err(e) => private_keys_fault(first@, second@) matches Some(fault) && e
                == RecryptError::Validation(fault),
        },
{
    let first = validated(buffer_to_private_key(first))?;
    let second = validated(buffer_to_private_key(second))?;
    let difference = engine_subtract_private_keys(&first, &second);
    Ok(bytes_to_buffer(difference.bytes.as_slice()))
}

} // verus!
