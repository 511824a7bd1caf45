//! What can go wrong at the boundary: malformed caller data, named field by
//! field, and failures of the cryptographic engine.

use vstd::prelude::*;

verus! {

/// The fields of the exchanged records that validation can name.
///
/// A byte field is named as callers see it in a length complaint; every public
/// key shares the two coordinate names.
#[derive(Clone, Copy, Debug, PartialEq, Eq, Structural)]
pub enum Field {
    PrivateKey,
    Plaintext,
    PublicKeyX,
    PublicKeyY,
    EncryptedTempKey,
    HashedTempKey,
    PublicSigningKey,
    PrivateSigningKey,
    Signature,
    EncryptedMessage,
    AuthHash,
    BlockEncryptedTempKey,
    BlockRandomTransformEncryptedTempKey,
    EphemeralPublicKey,
    ToPublicKey,
    TransformBlocks,
    BlockPublicKey,
    BlockRandomTransformPublicKey,
}

/// The name under which callers know a field.
pub open spec fn field_name(field: Field) -> Seq<char> {
    match field {
        Field::PrivateKey => "privateKey"@,
        Field::Plaintext => "plaintext"@,
        Field::PublicKeyX => "publicKey.x"@,
        Field::PublicKeyY => "publicKey.y"@,
        Field::EncryptedTempKey => "encryptedTempKey"@,
        Field::HashedTempKey => "hashedTempKey"@,
        Field::PublicSigningKey => "publicSigningKey"@,
        Field::PrivateSigningKey => "privateSigningKey"@,
        Field::Signature => "signature"@,
        Field::EncryptedMessage => "encryptedMessage"@,
        Field::AuthHash => "authHash"@,
        Field::BlockEncryptedTempKey => "transformBlock.encryptedTempKey"@,
        Field::BlockRandomTransformEncryptedTempKey => "transformBlock.randomTransformEncryptedTempKey"@,
        Field::EphemeralPublicKey => "ephemeralPublicKey"@,
        Field::ToPublicKey => "toPublicKey"@,
        Field::TransformBlocks => "transformBlocks"@,
        Field::BlockPublicKey => "transformBlock.publicKey"@,
        Field::BlockRandomTransformPublicKey => "transformBlock.randomTransformPublicKey"@,
    }
}

impl Field {
    /// The name under which callers know this field.
    pub fn name(&self) -> (r: &'static str)
        ensures
            r@ == field_name(*self),
    {
        match self {
            Field::PrivateKey => "privateKey",
            Field::Plaintext => "plaintext",
            Field::PublicKeyX => "publicKey.x",
            Field::PublicKeyY => "publicKey.y",
            Field::EncryptedTempKey => "encryptedTempKey",
            Field::HashedTempKey => "hashedTempKey",
            Field::PublicSigningKey => "publicSigningKey",
            Field::PrivateSigningKey => "privateSigningKey",
            Field::Signature => "signature",
            Field::EncryptedMessage => "encryptedMessage",
            Field::AuthHash => "authHash",
            Field::BlockEncryptedTempKey => "transformBlock.encryptedTempKey",
            Field::BlockRandomTransformEncryptedTempKey => "transformBlock.randomTransformEncryptedTempKey",
            Field::EphemeralPublicKey => "ephemeralPublicKey",
            Field::ToPublicKey => "toPublicKey",
            Field::TransformBlocks => "transformBlocks",
            Field::BlockPublicKey => "transformBlock.publicKey",
            Field::BlockRandomTransformPublicKey => "transformBlock.randomTransformPublicKey",
        }
    }
}

/// Caller data that is malformed. It is found before the engine is asked for
/// anything.
#[derive(Clone, Copy, Debug, PartialEq, Eq, Structural)]
pub enum ValidationError {
    /// A byte field whose length is not the protocol's.
    WrongLength { field: Field, expected_len: usize, actual_len: usize },
    /// A record that lacks one of its fields.
    MissingField { field: Field },
    /// A transform chain without a single block.
    EmptyTransformBlocks,
}

/// Why an operation failed.
#[derive(Clone, Copy, Debug, PartialEq, Eq, Structural)]
pub enum RecryptError {
    /// The caller's data was malformed.
    Validation(ValidationError),
    /// The engine found one of its cryptographic invariants violated. Nothing
    /// is retried.
    EngineFailure,
}

} // verus!
