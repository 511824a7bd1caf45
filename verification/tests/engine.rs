use recrypt_node::api256::add_private_keys;
use recrypt_node::api256::augment_public_key_256;
use recrypt_node::api256::augment_transform_key_256;
use recrypt_node::api256::subtract_private_keys;
use recrypt_node::api256::transform_key_to_bytes_256;
use recrypt_node::api256::RecryptApi256;
use recrypt_node::error::Field;
use recrypt_node::error::RecryptError;
use recrypt_node::error::ValidationError;
use recrypt_node::object::EncryptedValueObject;
use recrypt_node::object::KeyPairObject;
use recrypt_node::object::PublicKeyObject;
use recrypt_node::object::SigningKeyPairObject;
use recrypt_node::object::TransformKeyObject;
use recrypt_node::util::encrypted_value_to_js_object;
use recrypt_node::util::js_object_to_encrypted_value;
use recrypt_node::util::js_object_to_public_key;
use recrypt_node::util::js_object_to_transform_blocks;
use recrypt_node::util::js_object_to_transform_key;
use recrypt_node::util::public_key_to_js_object;
use recrypt_node::util::transform_key_to_js_object;

fn key_pair(api: &RecryptApi256) -> KeyPairObject {
    api.generate_key_pair().expect("the engine generates a key pair")
}

fn wrong_length(field: Field, expected_len: usize, actual_len: usize) -> RecryptError {
    RecryptError::Validation(ValidationError::WrongLength { field, expected_len, actual_len })
}

fn off_curve() -> PublicKeyObject {
    PublicKeyObject { x: Some(vec![1u8; 32]), y: Some(vec![2u8; 32]) }
}

fn scalar(last: u8) -> Vec<u8> {
    let mut bytes = vec![0u8; 32];
    bytes[31] = last;
    bytes
}

fn sealed(
    api: &RecryptApi256,
    plaintext: &[u8],
    keys: &KeyPairObject,
    signing: &SigningKeyPairObject,
) -> EncryptedValueObject {
    api.encrypt(plaintext, &keys.public_key, &signing.private_key).expect("encrypts")
}

fn transform_key(
    api: &RecryptApi256,
    from: &KeyPairObject,
    to: &KeyPairObject,
    signing: &SigningKeyPairObject,
) -> TransformKeyObject {
    api.generate_transform_key(&from.private_key, &to.public_key, &signing.private_key)
        .expect("generates a transform key")
}

#[test]
fn decrypt_recovers_what_encrypt_sealed() {
    let api = RecryptApi256::new();
    let keys = key_pair(&api);
    let signing = api.generate_ed25519_key_pair();
    let plaintext = api.generate_plaintext();
    assert_eq!(plaintext.len(), 384);
    let value = sealed(&api, &plaintext, &keys, &signing);
    assert_eq!(value.transform_blocks, Some(vec![]));
    assert_eq!(value.public_signing_key, Some(signing.public_key.clone()));
    assert_eq!(value.encrypted_message.as_ref().map(|m| m.len()), Some(384));
    assert_ne!(value.encrypted_message, Some(plaintext.clone()));
    assert_eq!(api.decrypt(&value, &keys.private_key), Ok(plaintext));
}

#[test]
fn decrypt_with_another_key_is_an_engine_failure() {
    let api = RecryptApi256::new();
    let keys = key_pair(&api);
    let other = key_pair(&api);
    let signing = api.generate_ed25519_key_pair();
    let plaintext = api.generate_plaintext();
    let value = sealed(&api, &plaintext, &keys, &signing);
    assert_eq!(api.decrypt(&value, &other.private_key), Err(RecryptError::EngineFailure));
}

#[test]
fn decrypt_of_a_tampered_value_is_an_engine_failure() {
    let api = RecryptApi256::new();
    let keys = key_pair(&api);
    let signing = api.generate_ed25519_key_pair();
    let plaintext = api.generate_plaintext();
    let mut value = sealed(&api, &plaintext, &keys, &signing);
    let mut hash = value.auth_hash.take().unwrap();
    hash[0] ^= 1;
    value.auth_hash = Some(hash);
    assert_eq!(api.decrypt(&value, &keys.private_key), Err(RecryptError::EngineFailure));
}

#[test]
fn decrypt_validates_the_value_before_the_key() {
    let api = RecryptApi256::new();
    let keys = key_pair(&api);
    let signing = api.generate_ed25519_key_pair();
    let plaintext = api.generate_plaintext();
    let mut value = sealed(&api, &plaintext, &keys, &signing);
    assert_eq!(api.decrypt(&value, &[0u8; 33]), Err(wrong_length(Field::PrivateKey, 32, 33)));
    value.auth_hash = Some(vec![0u8; 31]);
    assert_eq!(api.decrypt(&value, &[0u8; 33]), Err(wrong_length(Field::AuthHash, 32, 31)));
}

#[test]
fn single_hop_transform_decrypts_for_the_delegatee() {
    let api = RecryptApi256::new();
    let a = key_pair(&api);
    let b = key_pair(&api);
    let signing_a = api.generate_ed25519_key_pair();
    let proxy = api.generate_ed25519_key_pair();
    let plaintext = api.generate_plaintext();
    let key = transform_key(&api, &a, &b, &signing_a);
    assert_eq!(key.public_signing_key, Some(signing_a.public_key.clone()));
    assert_eq!(key.to_public_key, Some(b.public_key.clone()));
    let value = sealed(&api, &plaintext, &a, &signing_a);
    let transformed = api.transform(&value, &key, &proxy.private_key).expect("transforms");
    assert_eq!(transformed.transform_blocks.as_ref().map(|blocks| blocks.len()), Some(1));
    assert_eq!(transformed.public_signing_key, Some(proxy.public_key.clone()));
    assert_ne!(transformed.signature, value.signature);
    assert_eq!(api.decrypt(&transformed, &b.private_key), Ok(plaintext));
    assert_eq!(api.decrypt(&transformed, &a.private_key), Err(RecryptError::EngineFailure));
}

#[test]
fn two_hops_yield_two_blocks_in_insertion_order() {
    let api = RecryptApi256::new();
    let a = key_pair(&api);
    let b = key_pair(&api);
    let c = key_pair(&api);
    let signing = api.generate_ed25519_key_pair();
    let proxy = api.generate_ed25519_key_pair();
    let plaintext = api.generate_plaintext();
    let a_to_b = transform_key(&api, &a, &b, &signing);
    let b_to_c = transform_key(&api, &b, &c, &signing);
    let value = sealed(&api, &plaintext, &a, &signing);
    let first = api.transform(&value, &a_to_b, &proxy.private_key).expect("first hop");
    let second = api.transform(&first, &b_to_c, &proxy.private_key).expect("second hop");
    let first_blocks = first.transform_blocks.clone().unwrap();
    let second_blocks = second.transform_blocks.clone().unwrap();
    assert_eq!(first_blocks.len(), 1);
    assert_eq!(second_blocks.len(), 2);
    assert_eq!(second_blocks[0].public_key, first_blocks[0].public_key);
    assert_eq!(first_blocks[0].public_key, a_to_b.ephemeral_public_key);
    assert_eq!(second_blocks[1].public_key, b_to_c.ephemeral_public_key);
    assert_eq!(second_blocks[1].encrypted_temp_key, b_to_c.encrypted_temp_key);
    assert_eq!(api.decrypt(&second, &c.private_key), Ok(plaintext));
}

#[test]
fn transform_with_a_tampered_key_is_an_engine_failure() {
    let api = RecryptApi256::new();
    let a = key_pair(&api);
    let b = key_pair(&api);
    let signing = api.generate_ed25519_key_pair();
    let plaintext = api.generate_plaintext();
    let mut key = transform_key(&api, &a, &b, &signing);
    let mut signature = key.signature.take().unwrap();
    signature[5] ^= 0x40;
    key.signature = Some(signature);
    let value = sealed(&api, &plaintext, &a, &signing);
    assert_eq!(
        api.transform(&value, &key, &signing.private_key),
        Err(RecryptError::EngineFailure)
    );
}

#[test]
fn transform_validates_value_then_key_then_signing_key() {
    let api = RecryptApi256::new();
    let a = key_pair(&api);
    let b = key_pair(&api);
    let signing = api.generate_ed25519_key_pair();
    let plaintext = api.generate_plaintext();
    let mut key = transform_key(&api, &a, &b, &signing);
    let mut value = sealed(&api, &plaintext, &a, &signing);
    assert_eq!(
        api.transform(&value, &key, &[0u8; 63]),
        Err(wrong_length(Field::PrivateSigningKey, 64, 63))
    );
    key.hashed_temp_key = Some(vec![0u8; 127]);
    assert_eq!(
        api.transform(&value, &key, &[0u8; 63]),
        Err(wrong_length(Field::HashedTempKey, 128, 127))
    );
    value.transform_blocks = None;
    assert_eq!(
        api.transform(&value, &key, &[0u8; 63]),
        Err(RecryptError::Validation(ValidationError::MissingField {
            field: Field::TransformBlocks
        }))
    );
}

#[test]
fn generated_public_key_is_derived_from_the_private_key() {
    let api = RecryptApi256::new();
    let keys = key_pair(&api);
    assert_eq!(keys.private_key.len(), 32);
    assert_eq!(api.compute_public_key(&keys.private_key), Ok(keys.public_key.clone()));
    assert_ne!(keys.public_key.x, Some(keys.private_key.clone()));
    assert_eq!(
        api.compute_public_key(&keys.private_key[..31]),
        Err(wrong_length(Field::PrivateKey, 32, 31))
    );
}

#[test]
fn public_key_of_a_sum_is_the_sum_of_the_public_keys() {
    let api = RecryptApi256::new();
    let a = key_pair(&api);
    let b = key_pair(&api);
    let sum = add_private_keys(&a.private_key, &b.private_key).unwrap();
    assert_eq!(sum.len(), 32);
    assert_eq!(
        api.compute_public_key(&sum),
        augment_public_key_256(&a.public_key, &b.public_key)
    );
    assert_ne!(api.compute_public_key(&sum), Ok(a.public_key.clone()));
}

#[test]
fn adding_back_what_was_subtracted() {
    let api = RecryptApi256::new();
    let a = key_pair(&api);
    let b = key_pair(&api);
    let difference = subtract_private_keys(&a.private_key, &b.private_key).unwrap();
    assert_ne!(difference, a.private_key);
    assert_eq!(add_private_keys(&difference, &b.private_key), Ok(a.private_key.clone()));
}

#[test]
fn private_key_arithmetic_on_small_scalars() {
    assert_eq!(add_private_keys(&scalar(1), &scalar(2)), Ok(scalar(3)));
    assert_eq!(subtract_private_keys(&scalar(3), &scalar(2)), Ok(scalar(1)));
    assert_eq!(add_private_keys(&scalar(0), &scalar(9)), Ok(scalar(9)));
    assert_eq!(
        add_private_keys(&scalar(1), &[0u8; 31]),
        Err(wrong_length(Field::PrivateKey, 32, 31))
    );
    assert_eq!(
        add_private_keys(&[0u8; 33], &[0u8; 31]),
        Err(wrong_length(Field::PrivateKey, 32, 33))
    );
    assert_eq!(
        subtract_private_keys(&[], &scalar(1)),
        Err(wrong_length(Field::PrivateKey, 32, 0))
    );
}

#[test]
fn augment_public_key_rejects_what_is_no_point() {
    let api = RecryptApi256::new();
    let a = key_pair(&api);
    assert_eq!(
        augment_public_key_256(&a.public_key, &off_curve()),
        Err(RecryptError::EngineFailure)
    );
    let short = PublicKeyObject { x: Some(vec![0u8; 31]), y: Some(vec![0u8; 32]) };
    assert_eq!(
        augment_public_key_256(&off_curve(), &short),
        Err(wrong_length(Field::PublicKeyX, 32, 31))
    );
}

#[test]
fn ed25519_signature_verifies_for_the_matching_key_only() {
    let api = RecryptApi256::new();
    let pair = api.generate_ed25519_key_pair();
    let other = api.generate_ed25519_key_pair();
    let message = b"a message of any length".to_vec();
    let signature = api.ed25519_sign(&pair.private_key, &message).unwrap();
    assert_eq!(signature.len(), 64);
    assert_eq!(api.ed25519_verify(&pair.public_key, &message, &signature), Ok(true));
    let mut altered = message.clone();
    altered[3] ^= 1;
    assert_eq!(api.ed25519_verify(&pair.public_key, &altered, &signature), Ok(false));
    assert_eq!(api.ed25519_verify(&other.public_key, &message, &signature), Ok(false));
    assert_eq!(api.ed25519_sign(&pair.private_key, &message), Ok(signature));
}

#[test]
fn ed25519_signs_the_empty_message() {
    let api = RecryptApi256::new();
    let pair = api.generate_ed25519_key_pair();
    let signature = api.ed25519_sign(&pair.private_key, &[]).unwrap();
    assert_eq!(api.ed25519_verify(&pair.public_key, &[], &signature), Ok(true));
    assert_eq!(api.ed25519_verify(&pair.public_key, &[0], &signature), Ok(false));
}

#[test]
fn ed25519_malformed_input_is_an_error_not_false() {
    let api = RecryptApi256::new();
    let pair = api.generate_ed25519_key_pair();
    assert_eq!(
        api.ed25519_verify(&pair.public_key[..31], b"m", &[0u8; 63]),
        Err(wrong_length(Field::PublicSigningKey, 32, 31))
    );
    assert_eq!(
        api.ed25519_verify(&pair.public_key, b"m", &[0u8; 63]),
        Err(wrong_length(Field::Signature, 64, 63))
    );
    assert_eq!(
        api.ed25519_sign(&pair.private_key[..63], b"m"),
        Err(wrong_length(Field::PrivateSigningKey, 64, 63))
    );
}

#[test]
fn signing_key_pair_halves_belong_together() {
    let api = RecryptApi256::new();
    let pair = api.generate_ed25519_key_pair();
    assert_eq!(pair.private_key.len(), 64);
    assert_eq!(pair.public_key, pair.private_key[32..].to_vec());
    assert_eq!(api.compute_ed25519_public_key(&pair.private_key), Ok(pair.public_key.clone()));
    let mut mismatched = pair.private_key.clone();
    mismatched[40] ^= 1;
    assert_eq!(
        api.compute_ed25519_public_key(&mismatched),
        Err(RecryptError::EngineFailure)
    );
    assert_eq!(api.ed25519_sign(&mismatched, b"m"), Err(RecryptError::EngineFailure));
    assert_eq!(
        api.compute_ed25519_public_key(&[0u8; 32]),
        Err(wrong_length(Field::PrivateSigningKey, 64, 32))
    );
}

#[test]
fn symmetric_key_is_derived_one_way() {
    let api = RecryptApi256::new();
    let plaintext = api.generate_plaintext();
    let key = api.derive_symmetric_key(&plaintext).unwrap();
    assert_eq!(key.len(), 32);
    assert_ne!(key, plaintext[..32].to_vec());
    assert_eq!(api.derive_symmetric_key(&plaintext), Ok(key.clone()));
    assert_ne!(api.derive_symmetric_key(&api.generate_plaintext()), Ok(key));
    assert_eq!(
        api.derive_symmetric_key(&plaintext[..100]),
        Err(wrong_length(Field::Plaintext, 384, 100))
    );
}

#[test]
fn schnorr_signature_verifies() {
    let api = RecryptApi256::new();
    let keys = key_pair(&api);
    let other = key_pair(&api);
    let message = b"schnorr".to_vec();
    let signature = api.schnorr_sign(&keys.private_key, &keys.public_key, &message).unwrap();
    assert_eq!(signature.len(), 64);
    assert_eq!(api.schnorr_verify(&keys.public_key, None, &message, &signature), Ok(true));
    assert_eq!(api.schnorr_verify(&other.public_key, None, &message, &signature), Ok(false));
    assert_eq!(api.schnorr_verify(&keys.public_key, None, b"other", &signature), Ok(false));
}

#[test]
fn schnorr_verify_with_an_augmented_key() {
    let api = RecryptApi256::new();
    let keys = key_pair(&api);
    let augmenting = key_pair(&api);
    let augmented = augment_public_key_256(&keys.public_key, &augmenting.public_key).unwrap();
    let message = b"augmented".to_vec();
    let signature = api.schnorr_sign(&keys.private_key, &augmented, &message).unwrap();
    assert_eq!(
        api.schnorr_verify(&augmented, Some(&augmenting.private_key), &message, &signature),
        Ok(true)
    );
    assert_eq!(api.schnorr_verify(&augmented, None, &message, &signature), Ok(false));
}

#[test]
fn schnorr_faults_and_failures() {
    let api = RecryptApi256::new();
    let keys = key_pair(&api);
    assert_eq!(
        api.schnorr_sign(&[0u8; 31], &off_curve(), b"message"),
        Err(wrong_length(Field::PrivateKey, 32, 31))
    );
    assert_eq!(
        api.schnorr_sign(&keys.private_key, &off_curve(), b"message"),
        Err(RecryptError::EngineFailure)
    );
    assert_eq!(
        api.schnorr_verify(&off_curve(), None, b"message", &[0u8; 64]),
        Err(RecryptError::EngineFailure)
    );
    assert_eq!(
        api.schnorr_verify(&keys.public_key, Some(&[0u8; 31]), b"message", &[0u8; 63]),
        Err(wrong_length(Field::Signature, 64, 63))
    );
    assert_eq!(
        api.schnorr_verify(&keys.public_key, Some(&[0u8; 31]), b"message", &[0u8; 64]),
        Err(wrong_length(Field::PrivateKey, 32, 31))
    );
    assert_eq!(api.schnorr_verify(&keys.public_key, None, b"message", &[0u8; 64]), Ok(false));
}

#[test]
fn transform_key_bytes_are_the_fields_in_their_order() {
    let api = RecryptApi256::new();
    let a = key_pair(&api);
    let b = key_pair(&api);
    let signing = api.generate_ed25519_key_pair();
    let key = transform_key(&api, &a, &b, &signing);
    let mut expected = Vec::new();
    expected.extend(key.ephemeral_public_key.clone().unwrap().x.unwrap());
    expected.extend(key.ephemeral_public_key.clone().unwrap().y.unwrap());
    expected.extend(key.to_public_key.clone().unwrap().x.unwrap());
    expected.extend(key.to_public_key.clone().unwrap().y.unwrap());
    expected.extend(key.encrypted_temp_key.clone().unwrap());
    expected.extend(key.hashed_temp_key.clone().unwrap());
    expected.extend(key.public_signing_key.clone().unwrap());
    assert_eq!(expected.len(), 672);
    assert_eq!(transform_key_to_bytes_256(&key), Ok(expected));
}

#[test]
fn transform_key_bytes_of_a_key_that_the_engine_rejects() {
    let api = RecryptApi256::new();
    let a = key_pair(&api);
    let b = key_pair(&api);
    let signing = api.generate_ed25519_key_pair();
    let mut key = transform_key(&api, &a, &b, &signing);
    key.to_public_key = Some(off_curve());
    assert_eq!(transform_key_to_bytes_256(&key), Err(RecryptError::EngineFailure));
    key.signature = None;
    assert_eq!(
        transform_key_to_bytes_256(&key),
        Err(RecryptError::Validation(ValidationError::MissingField { field: Field::Signature }))
    );
}

#[test]
fn augmenting_a_transform_key_changes_the_hashed_temp_key_only() {
    let api = RecryptApi256::new();
    let a = key_pair(&api);
    let b = key_pair(&api);
    let augmenting = key_pair(&api);
    let signing = api.generate_ed25519_key_pair();
    let key = transform_key(&api, &a, &b, &signing);
    let augmented = augment_transform_key_256(&key, &augmenting.private_key).unwrap();
    assert_ne!(augmented.hashed_temp_key, key.hashed_temp_key);
    assert_eq!(augmented.signature, key.signature);
    assert_eq!(
        augmented,
        TransformKeyObject { hashed_temp_key: augmented.hashed_temp_key.clone(), ..key.clone() }
    );
    assert_eq!(
        augment_transform_key_256(&key, &augmenting.private_key[..31]),
        Err(wrong_length(Field::PrivateKey, 32, 31))
    );
}

#[test]
fn augmented_keys_delegate_through_transform() {
    let api = RecryptApi256::new();
    let master = key_pair(&api);
    let server = key_pair(&api);
    let device = key_pair(&api);
    let signing = api.generate_ed25519_key_pair();
    let plaintext = api.generate_plaintext();
    let augmented_public =
        augment_public_key_256(&master.public_key, &server.public_key).unwrap();
    let value = api.encrypt(&plaintext, &augmented_public, &signing.private_key).unwrap();
    let key = transform_key(&api, &master, &device, &signing);
    let augmented_key = augment_transform_key_256(&key, &server.private_key).unwrap();
    let transformed = api.transform(&value, &augmented_key, &signing.private_key).unwrap();
    assert_eq!(api.decrypt(&transformed, &device.private_key), Ok(plaintext));
    assert_eq!(api.decrypt(&value, &master.private_key), Err(RecryptError::EngineFailure));
}

#[test]
fn sealing_validates_public_key_then_signing_key_then_the_rest() {
    let api = RecryptApi256::new();
    let keys = key_pair(&api);
    let short_key = PublicKeyObject { x: Some(vec![0u8; 32]), y: Some(vec![0u8; 31]) };
    assert_eq!(
        api.encrypt(&[0u8; 3], &short_key, &[0u8; 2]),
        Err(wrong_length(Field::PublicKeyY, 32, 31))
    );
    assert_eq!(
        api.encrypt(&[0u8; 3], &keys.public_key, &[0u8; 2]),
        Err(wrong_length(Field::PrivateSigningKey, 64, 2))
    );
    assert_eq!(
        api.encrypt(&[0u8; 3], &keys.public_key, &[0u8; 64]),
        Err(wrong_length(Field::Plaintext, 384, 3))
    );
    assert_eq!(
        api.generate_transform_key(&[0u8; 3], &short_key, &[0u8; 2]),
        Err(wrong_length(Field::PublicKeyY, 32, 31))
    );
    assert_eq!(
        api.generate_transform_key(&[0u8; 3], &keys.public_key, &[0u8; 2]),
        Err(wrong_length(Field::PrivateSigningKey, 64, 2))
    );
    assert_eq!(
        api.generate_transform_key(&[0u8; 3], &keys.public_key, &[0u8; 64]),
        Err(wrong_length(Field::PrivateKey, 32, 3))
    );
}

#[test]
fn sealing_to_what_is_no_point_is_an_engine_failure() {
    let api = RecryptApi256::new();
    let keys = key_pair(&api);
    let signing = api.generate_ed25519_key_pair();
    let plaintext = api.generate_plaintext();
    assert_eq!(
        api.encrypt(&plaintext, &off_curve(), &signing.private_key),
        Err(RecryptError::EngineFailure)
    );
    assert_eq!(
        api.generate_transform_key(&keys.private_key, &off_curve(), &signing.private_key),
        Err(RecryptError::EngineFailure)
    );
    let mut mismatched = signing.private_key.clone();
    mismatched[63] ^= 1;
    assert_eq!(
        api.encrypt(&plaintext, &keys.public_key, &mismatched),
        Err(RecryptError::EngineFailure)
    );
}

#[test]
fn engines_are_independent() {
    let one = RecryptApi256::new();
    let other = RecryptApi256::new();
    let keys = key_pair(&one);
    let signing = other.generate_ed25519_key_pair();
    let plaintext = one.generate_plaintext();
    assert_ne!(plaintext, other.generate_plaintext());
    let value = other.encrypt(&plaintext, &keys.public_key, &signing.private_key).unwrap();
    assert_eq!(one.decrypt(&value, &keys.private_key), Ok(plaintext));
}

#[test]
fn plaintext_comes_back_as_the_engine_holds_it() {
    let api = RecryptApi256::new();
    let keys = key_pair(&api);
    let signing = api.generate_ed25519_key_pair();
    let unreduced = vec![0xFFu8; 384];
    let value = sealed(&api, &unreduced, &keys, &signing);
    let reduced = api.decrypt(&value, &keys.private_key).expect("decrypts");
    assert_eq!(reduced.len(), 384);
    assert_ne!(reduced, unreduced);
    let again = sealed(&api, &reduced, &keys, &signing);
    assert_eq!(api.decrypt(&again, &keys.private_key), Ok(reduced));
}

#[test]
fn private_key_arithmetic_reduces_its_arguments() {
    let unreduced = vec![0xFFu8; 32];
    let reduced = add_private_keys(&unreduced, &scalar(0)).unwrap();
    assert_ne!(reduced, unreduced);
    let difference = subtract_private_keys(&unreduced, &scalar(7)).unwrap();
    assert_eq!(add_private_keys(&difference, &scalar(7)), Ok(reduced));
}

#[test]
fn a_point_off_the_curve_is_refused_by_the_decoder() {
    let object = PublicKeyObject { x: Some(scalar(1)), y: Some(scalar(1)) };
    assert_eq!(js_object_to_public_key(&object), Err(RecryptError::EngineFailure));
    assert_eq!(js_object_to_public_key(&off_curve()), Err(RecryptError::EngineFailure));
}

#[test]
fn a_point_of_the_curve_is_decoded_as_it_is() {
    let api = RecryptApi256::new();
    let keys = key_pair(&api);
    let key = js_object_to_public_key(&keys.public_key).expect("a generated key is a point");
    assert_eq!(Some(key.x.to_vec()), keys.public_key.x);
    assert_eq!(Some(key.y.to_vec()), keys.public_key.y);
    assert_eq!(public_key_to_js_object(&key), keys.public_key);
}

#[test]
fn a_length_that_is_off_wins_over_a_point_off_the_curve() {
    let short = PublicKeyObject { x: Some(scalar(1)), y: Some(vec![0u8; 31]) };
    assert_eq!(js_object_to_public_key(&short), Err(wrong_length(Field::PublicKeyY, 32, 31)));
    let api = RecryptApi256::new();
    let a = key_pair(&api);
    let b = key_pair(&api);
    let signing = api.generate_ed25519_key_pair();
    let mut key = transform_key(&api, &a, &b, &signing);
    key.ephemeral_public_key = Some(off_curve());
    assert_eq!(js_object_to_transform_key(&key), Err(RecryptError::EngineFailure));
    key.signature = Some(vec![0u8; 63]);
    assert_eq!(js_object_to_transform_key(&key), Err(wrong_length(Field::Signature, 64, 63)));
}

#[test]
fn transform_key_decoder_asks_the_engine() {
    let api = RecryptApi256::new();
    let a = key_pair(&api);
    let b = key_pair(&api);
    let signing = api.generate_ed25519_key_pair();
    let object = transform_key(&api, &a, &b, &signing);
    let key = js_object_to_transform_key(&object).expect("a generated key is accepted");
    assert_eq!(transform_key_to_js_object(&key), object);
    let mut off = object.clone();
    off.to_public_key = Some(off_curve());
    assert_eq!(js_object_to_transform_key(&off), Err(RecryptError::EngineFailure));
    let mut unhashed = object.clone();
    unhashed.hashed_temp_key = Some(vec![1u8; 128]);
    assert_eq!(js_object_to_transform_key(&unhashed), Err(RecryptError::EngineFailure));
}

#[test]
fn encrypted_value_decoder_asks_the_engine() {
    let api = RecryptApi256::new();
    let a = key_pair(&api);
    let b = key_pair(&api);
    let signing = api.generate_ed25519_key_pair();
    let plaintext = api.generate_plaintext();
    let once = sealed(&api, &plaintext, &a, &signing);
    let key = transform_key(&api, &a, &b, &signing);
    let transformed = api.transform(&once, &key, &signing.private_key).unwrap();

    let decoded_once = js_object_to_encrypted_value(&once).expect("accepted");
    assert_eq!(decoded_once.hops(), 0);
    assert_eq!(encrypted_value_to_js_object(&decoded_once), once);
    let decoded = js_object_to_encrypted_value(&transformed).expect("accepted");
    assert_eq!(decoded.hops(), 1);
    assert_eq!(encrypted_value_to_js_object(&decoded), transformed);

    let blocks = transformed.transform_blocks.clone().unwrap();
    let chain = js_object_to_transform_blocks(&blocks).expect("accepted");
    assert_eq!(chain.len(), 1);
    assert_eq!(
        js_object_to_transform_blocks(&[]),
        Err(RecryptError::Validation(ValidationError::EmptyTransformBlocks))
    );

    let mut off_blocks = blocks.clone();
    off_blocks[0].random_transform_public_key = Some(off_curve());
    assert_eq!(js_object_to_transform_blocks(&off_blocks), Err(RecryptError::EngineFailure));
    let mut off = transformed.clone();
    off.transform_blocks = Some(off_blocks);
    assert_eq!(js_object_to_encrypted_value(&off), Err(RecryptError::EngineFailure));
    assert_eq!(api.decrypt(&off, &b.private_key), Err(RecryptError::EngineFailure));
    off.auth_hash = Some(vec![0u8; 33]);
    assert_eq!(js_object_to_encrypted_value(&off), Err(wrong_length(Field::AuthHash, 32, 33)));

    let mut off_once = once.clone();
    off_once.ephemeral_public_key = Some(off_curve());
    assert_eq!(js_object_to_encrypted_value(&off_once), Err(RecryptError::EngineFailure));
}

#[test]
fn a_generated_signing_key_pair_signs() {
    let api = RecryptApi256::new();
    let pair = api.generate_ed25519_key_pair();
    assert!(api.ed25519_sign(&pair.private_key, b"message").is_ok());
    assert_eq!(api.compute_ed25519_public_key(&pair.private_key), Ok(pair.public_key.clone()));
    assert_eq!(
        api.compute_ed25519_public_key(&[0u8; 64]),
        Err(RecryptError::EngineFailure)
    );
}

#[test]
fn transform_key_bytes_leave_the_signature_out() {
    let api = RecryptApi256::new();
    let a = key_pair(&api);
    let b = key_pair(&api);
    let signing = api.generate_ed25519_key_pair();
    let key = transform_key(&api, &a, &b, &signing);
    let bytes = transform_key_to_bytes_256(&key).unwrap();
    assert_eq!(bytes.len(), 672);
    let mut resigned = key.clone();
    resigned.signature = Some(vec![9u8; 64]);
    assert_eq!(transform_key_to_bytes_256(&resigned), Ok(bytes.clone()));
    assert_eq!(bytes[512..640].to_vec(), key.hashed_temp_key.clone().unwrap());
    assert_eq!(bytes[640..].to_vec(), key.public_signing_key.clone().unwrap());
    let mut other = key.clone();
    other.public_signing_key = Some(vec![9u8; 32]);
    assert_ne!(transform_key_to_bytes_256(&other), Ok(bytes));
}

#[test]
fn an_augmented_key_keeps_signature_and_signer_of_the_record() {
    let api = RecryptApi256::new();
    let a = key_pair(&api);
    let b = key_pair(&api);
    let augmenting = key_pair(&api);
    let signing = api.generate_ed25519_key_pair();
    let mut key = transform_key(&api, &a, &b, &signing);
    key.signature = Some(vec![7u8; 64]);
    key.public_signing_key = Some(vec![8u8; 32]);
    let augmented = augment_transform_key_256(&key, &augmenting.private_key).unwrap();
    assert_eq!(augmented.signature, key.signature);
    assert_eq!(augmented.public_signing_key, key.public_signing_key);
    assert_eq!(augmented.hashed_temp_key.as_ref().map(|h| h.len()), Some(128));
    assert_eq!(augmented.encrypted_temp_key.as_ref().map(|k| k.len()), Some(384));
    let mut off = key.clone();
    off.ephemeral_public_key = Some(off_curve());
    assert_eq!(
        augment_transform_key_256(&off, &augmenting.private_key),
        Err(RecryptError::EngineFailure)
    );
}

#[test]
fn private_key_arithmetic_reduces_by_the_field_prime_and_the_group_order() {
    // one below the order and one
    let first: [u8; 32] = [143, 181, 1, 227, 74, 163, 135, 249, 170, 111, 236, 184, 97, 132, 220, 33, 46, 141, 142, 18, 248, 43, 57, 36, 26, 46, 244, 91, 87, 172, 114, 96];
    let second: [u8; 32] = [0, 0, 0, 0, 0, 0, 0, 0, 0, 0, 0, 0, 0, 0, 0, 0, 0, 0, 0, 0, 0, 0, 0, 0, 0, 0, 0, 0, 0, 0, 0, 1];
    assert_eq!(add_private_keys(&first, &second), Ok(vec![0, 0, 0, 0, 0, 0, 0, 0, 0, 0, 0, 0, 0, 0, 0, 0, 0, 0, 0, 0, 0, 0, 0, 0, 0, 0, 0, 0, 0, 0, 0, 0]));
    assert_eq!(subtract_private_keys(&first, &second), Ok(vec![143, 181, 1, 227, 74, 163, 135, 249, 170, 111, 236, 184, 97, 132, 220, 33, 46, 141, 142, 18, 248, 43, 57, 36, 26, 46, 244, 91, 87, 172, 114, 95]));
    // the order and five
    let first: [u8; 32] = [143, 181, 1, 227, 74, 163, 135, 249, 170, 111, 236, 184, 97, 132, 220, 33, 46, 141, 142, 18, 248, 43, 57, 36, 26, 46, 244, 91, 87, 172, 114, 97];
    let second: [u8; 32] = [0, 0, 0, 0, 0, 0, 0, 0, 0, 0, 0, 0, 0, 0, 0, 0, 0, 0, 0, 0, 0, 0, 0, 0, 0, 0, 0, 0, 0, 0, 0, 5];
    assert_eq!(add_private_keys(&first, &second), Ok(vec![0, 0, 0, 0, 0, 0, 0, 0, 0, 0, 0, 0, 0, 0, 0, 0, 0, 0, 0, 0, 0, 0, 0, 0, 0, 0, 0, 0, 0, 0, 0, 5]));
    assert_eq!(subtract_private_keys(&first, &second), Ok(vec![143, 181, 1, 227, 74, 163, 135, 249, 170, 111, 236, 184, 97, 132, 220, 33, 46, 141, 142, 18, 248, 43, 57, 36, 26, 46, 244, 91, 87, 172, 114, 92]));
    // the field prime and seven
    let first: [u8; 32] = [143, 181, 1, 227, 74, 163, 135, 249, 170, 111, 236, 184, 97, 132, 220, 33, 238, 91, 136, 209, 32, 181, 181, 158, 24, 92, 172, 108, 94, 8, 150, 103];
    let second: [u8; 32] = [0, 0, 0, 0, 0, 0, 0, 0, 0, 0, 0, 0, 0, 0, 0, 0, 0, 0, 0, 0, 0, 0, 0, 0, 0, 0, 0, 0, 0, 0, 0, 7];
    assert_eq!(add_private_keys(&first, &second), Ok(vec![0, 0, 0, 0, 0, 0, 0, 0, 0, 0, 0, 0, 0, 0, 0, 0, 0, 0, 0, 0, 0, 0, 0, 0, 0, 0, 0, 0, 0, 0, 0, 7]));
    assert_eq!(subtract_private_keys(&first, &second), Ok(vec![143, 181, 1, 227, 74, 163, 135, 249, 170, 111, 236, 184, 97, 132, 220, 33, 46, 141, 142, 18, 248, 43, 57, 36, 26, 46, 244, 91, 87, 172, 114, 90]));
    // twice one below the field prime
    let first: [u8; 32] = [143, 181, 1, 227, 74, 163, 135, 249, 170, 111, 236, 184, 97, 132, 220, 33, 238, 91, 136, 209, 32, 181, 181, 158, 24, 92, 172, 108, 94, 8, 150, 102];
    let second: [u8; 32] = [143, 181, 1, 227, 74, 163, 135, 249, 170, 111, 236, 184, 97, 132, 220, 33, 238, 91, 136, 209, 32, 181, 181, 158, 24, 92, 172, 108, 94, 8, 150, 102];
    assert_eq!(add_private_keys(&first, &second), Ok(vec![0, 0, 0, 0, 0, 0, 0, 0, 0, 0, 0, 0, 0, 0, 0, 1, 127, 155, 245, 124, 81, 20, 248, 243, 252, 91, 112, 34, 12, 184, 72, 10]));
    assert_eq!(subtract_private_keys(&first, &second), Ok(vec![0, 0, 0, 0, 0, 0, 0, 0, 0, 0, 0, 0, 0, 0, 0, 0, 0, 0, 0, 0, 0, 0, 0, 0, 0, 0, 0, 0, 0, 0, 0, 0]));
    // all ones
    let first: [u8; 32] = [255, 255, 255, 255, 255, 255, 255, 255, 255, 255, 255, 255, 255, 255, 255, 255, 255, 255, 255, 255, 255, 255, 255, 255, 255, 255, 255, 255, 255, 255, 255, 255];
    let second: [u8; 32] = [255, 255, 255, 255, 255, 255, 255, 255, 255, 255, 255, 255, 255, 255, 255, 255, 255, 255, 255, 255, 255, 255, 255, 255, 255, 255, 255, 255, 255, 255, 255, 255];
    assert_eq!(add_private_keys(&first, &second), Ok(vec![80, 224, 250, 86, 32, 21, 104, 19, 0, 176, 57, 214, 219, 113, 107, 154, 244, 187, 96, 74, 198, 105, 91, 159, 181, 23, 178, 203, 236, 66, 96, 207]));
    assert_eq!(subtract_private_keys(&first, &second), Ok(vec![0, 0, 0, 0, 0, 0, 0, 0, 0, 0, 0, 0, 0, 0, 0, 0, 0, 0, 0, 0, 0, 0, 0, 0, 0, 0, 0, 0, 0, 0, 0, 0]));
    // three and ten above the order
    let first: [u8; 32] = [0, 0, 0, 0, 0, 0, 0, 0, 0, 0, 0, 0, 0, 0, 0, 0, 0, 0, 0, 0, 0, 0, 0, 0, 0, 0, 0, 0, 0, 0, 0, 3];
    let second: [u8; 32] = [143, 181, 1, 227, 74, 163, 135, 249, 170, 111, 236, 184, 97, 132, 220, 33, 46, 141, 142, 18, 248, 43, 57, 36, 26, 46, 244, 91, 87, 172, 114, 107];
    assert_eq!(add_private_keys(&first, &second), Ok(vec![0, 0, 0, 0, 0, 0, 0, 0, 0, 0, 0, 0, 0, 0, 0, 0, 0, 0, 0, 0, 0, 0, 0, 0, 0, 0, 0, 0, 0, 0, 0, 13]));
    assert_eq!(subtract_private_keys(&first, &second), Ok(vec![143, 181, 1, 227, 74, 163, 135, 249, 170, 111, 236, 184, 97, 132, 220, 33, 46, 141, 142, 18, 248, 43, 57, 36, 26, 46, 244, 91, 87, 172, 114, 90]));
    // two large keys
    let first: [u8; 32] = [128, 0, 0, 0, 0, 0, 0, 0, 0, 0, 0, 0, 0, 0, 0, 0, 0, 0, 0, 0, 0, 0, 0, 0, 0, 0, 0, 0, 0, 0, 0, 0];
    let second: [u8; 32] = [128, 0, 0, 0, 0, 0, 0, 0, 0, 0, 0, 0, 0, 0, 0, 0, 0, 0, 0, 0, 0, 0, 0, 0, 0, 0, 0, 0, 0, 0, 48, 57];
    assert_eq!(add_private_keys(&first, &second), Ok(vec![112, 74, 254, 28, 181, 92, 120, 6, 85, 144, 19, 71, 158, 123, 35, 222, 209, 114, 113, 237, 7, 212, 198, 219, 229, 209, 11, 164, 168, 83, 189, 216]));
    assert_eq!(subtract_private_keys(&first, &second), Ok(vec![143, 181, 1, 227, 74, 163, 135, 249, 170, 111, 236, 184, 97, 132, 220, 33, 46, 141, 142, 18, 248, 43, 57, 36, 26, 46, 244, 91, 87, 172, 66, 40]));
}

const FIELD_PRIME: [u8; 32] = [143, 181, 1, 227, 74, 163, 135, 249, 170, 111, 236, 184, 97, 132, 220, 33, 238, 91, 136, 209, 32, 181, 181, 158, 24, 92, 172, 108, 94, 8, 150, 103];
const ALL_ONES_REDUCED: [u8; 32] = [112, 74, 254, 28, 181, 92, 120, 6, 85, 144, 19, 71, 158, 123, 35, 222, 17, 164, 119, 46, 223, 74, 74, 97, 231, 163, 83, 147, 161, 247, 105, 152];

fn plus_field_prime(bytes: &[u8]) -> Option<Vec<u8>> {
    let mut out = vec![0u8; 32];
    let mut carry = 0u16;
    for i in (0..32).rev() {
        let sum = bytes[i] as u16 + FIELD_PRIME[i] as u16 + carry;
        out[i] = sum as u8;
        carry = sum >> 8;
    }
    if carry == 0 {
        Some(out)
    } else {
        None
    }
}

#[test]
fn transform_key_bytes_hold_every_field_element_reduced() {
    let api = RecryptApi256::new();
    let signing = api.generate_ed25519_key_pair();
    let a = key_pair(&api);
    let mut found = None;
    for _ in 0..60 {
        let b = key_pair(&api);
        let key = transform_key(&api, &a, &b, &signing);
        let to = key.to_public_key.clone().unwrap();
        let unreduced =
            (plus_field_prime(&to.x.clone().unwrap()), plus_field_prime(&to.y.clone().unwrap()));
        if let (Some(x), Some(y)) = unreduced {
            found = Some((key, x, y));
            break;
        }
    }
    let (key, x, y) = found.expect("a key whose coordinates leave room for the field prime");
    let bytes = transform_key_to_bytes_256(&key).unwrap();
    let mut unreduced = key.clone();
    unreduced.to_public_key = Some(PublicKeyObject { x: Some(x), y: Some(y) });
    unreduced.encrypted_temp_key = Some(vec![0xFFu8; 384]);
    let other = transform_key_to_bytes_256(&unreduced).unwrap();
    assert_eq!(other[..128].to_vec(), bytes[..128].to_vec());
    for i in 0..12 {
        assert_eq!(other[128 + 32 * i..160 + 32 * i].to_vec(), ALL_ONES_REDUCED.to_vec());
    }
    assert_eq!(other[512..].to_vec(), bytes[512..].to_vec());
}
