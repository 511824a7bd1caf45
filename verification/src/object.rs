//! The composite values as callers hand them over: every field may be missing,
//! and a buffer may have any length.

use vstd::prelude::*;
use crate::model::EncryptedValueRecord;
use crate::model::PublicKeyRecord;
use crate::model::TransformBlockRecord;
use crate::model::TransformKeyRecord;

verus! {

/// A public key as supplied: its two coordinate buffers.
#[derive(Clone, Debug, PartialEq, Eq)]
pub struct PublicKeyObject {
    pub x: Option<Vec<u8>>,
    pub y: Option<Vec<u8>>,
}

/// A transform key as supplied.
#[derive(Clone, Debug, PartialEq, Eq)]
pub struct TransformKeyObject {
    pub ephemeral_public_key: Option<PublicKeyObject>,
    pub to_public_key: Option<PublicKeyObject>,
    pub encrypted_temp_key: Option<Vec<u8>>,
    pub hashed_temp_key: Option<Vec<u8>>,
    pub public_signing_key: Option<Vec<u8>>,
    pub signature: Option<Vec<u8>>,
}

/// One transform block as supplied.
#[derive(Clone, Debug, PartialEq, Eq)]
pub struct TransformBlockObject {
    pub public_key: Option<PublicKeyObject>,
    pub encrypted_temp_key: Option<Vec<u8>>,
    pub random_transform_public_key: Option<PublicKeyObject>,
    pub random_transform_encrypted_temp_key: Option<Vec<u8>>,
}

/// An encrypted value as supplied. An empty list of blocks stands for a value
/// that was encrypted once.
#[derive(Clone, Debug, PartialEq, Eq)]
pub struct EncryptedValueObject {
    pub ephemeral_public_key: Option<PublicKeyObject>,
    pub encrypted_message: Option<Vec<u8>>,
    pub auth_hash: Option<Vec<u8>>,
    pub public_signing_key: Option<Vec<u8>>,
    pub signature: Option<Vec<u8>>,
    pub transform_blocks: Option<Vec<TransformBlockObject>>,
}

/// A freshly generated key pair as it is handed back.
#[derive(Clone, Debug, PartialEq, Eq)]
pub struct KeyPairObject {
    pub private_key: Vec<u8>,
    pub public_key: PublicKeyObject,
}

/// A freshly generated signing key pair as it is handed back.
#[derive(Clone, Debug, PartialEq, Eq)]
pub struct SigningKeyPairObject {
    pub private_key: Vec<u8>,
    pub public_key: Vec<u8>,
}

/// The bytes of a buffer that may be missing.
pub open spec fn buffer_record(buffer: Option<Vec<u8>>) -> Option<Seq<u8>> {
    match buffer {
        Some(bytes) => Some(bytes@),
        None => None,
    }
}

/// The record of a public key that may be missing.
pub open spec fn public_key_record(object: Option<PublicKeyObject>) -> Option<PublicKeyRecord> {
    match object {
        Some(key) => Some(key@),
        None => None,
    }
}

/// The records of a list of supplied blocks, in the same order.
pub open spec fn block_object_records(blocks: Seq<TransformBlockObject>) -> Seq<TransformBlockRecord> {
    blocks.map_values(|b: TransformBlockObject| b@)
}

impl View for PublicKeyObject {
    type V = PublicKeyRecord;

    open spec fn view(&self) -> PublicKeyRecord {
        PublicKeyRecord { x: buffer_record(self.x), y: buffer_record(self.y) }
    }
}

impl View for TransformKeyObject {
    type V = TransformKeyRecord;

    open spec fn view(&self) -> TransformKeyRecord {
        TransformKeyRecord {
            ephemeral_public_key: public_key_record(self.ephemeral_public_key),
            to_public_key: public_key_record(self.to_public_key),
            encrypted_temp_key: buffer_record(self.encrypted_temp_key),
            hashed_temp_key: buffer_record(self.hashed_temp_key),
            public_signing_key: buffer_record(self.public_signing_key),
            signature: buffer_record(self.signature),
        }
    }
}

impl View for TransformBlockObject {
    type V = TransformBlockRecord;

    open spec fn view(&self) -> TransformBlockRecord {
        TransformBlockRecord {
            public_key: public_key_record(self.public_key),
            encrypted_temp_key: buffer_record(self.encrypted_temp_key),
            random_transform_public_key: public_key_record(self.random_transform_public_key),
            random_transform_encrypted_temp_key: buffer_record(
                self.random_transform_encrypted_temp_key,
            ),
        }
    }
}

impl View for EncryptedValueObject {
    type V = EncryptedValueRecord;

    open spec fn view(&self) -> EncryptedValueRecord {
        EncryptedValueRecord {
            ephemeral_public_key: public_key_record(self.ephemeral_public_key),
            encrypted_message: buffer_record(self.encrypted_message),
            auth_hash: buffer_record(self.auth_hash),
            public_signing_key: buffer_record(self.public_signing_key),
            signature: buffer_record(self.signature),
            transform_blocks: match self.transform_blocks {
                Some(blocks) => Some(block_object_records(blocks@)),
                None => None,
            },
        }
    }
}

} // verus!
