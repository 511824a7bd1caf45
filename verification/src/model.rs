//! The typed model: every cryptographic artifact with its fixed byte lengths,
//! and the record that each of them is to callers.

use vstd::prelude::*;

verus! {

/// Bytes of a private key, of one public key coordinate, of an authentication
/// hash, of a public signing key and of a derived symmetric key.
pub const KEY_LEN: usize = 32;

/// Bytes of a signature and of the private half of a signing key pair.
pub const SIGNATURE_LEN: usize = 64;

/// Bytes of a hashed temp key.
pub const HASHED_TEMP_KEY_LEN: usize = 128;

/// Bytes of a plaintext, of an encrypted message and of an encrypted temp key.
pub const MESSAGE_LEN: usize = 384;

/// A public key as a record: two coordinates, each possibly absent, of any
/// length.
pub struct PublicKeyRecord {
    pub x: Option<Seq<u8>>,
    pub y: Option<Seq<u8>>,
}

/// A transform key as a record.
pub struct TransformKeyRecord {
    pub ephemeral_public_key: Option<PublicKeyRecord>,
    pub to_public_key: Option<PublicKeyRecord>,
    pub encrypted_temp_key: Option<Seq<u8>>,
    pub hashed_temp_key: Option<Seq<u8>>,
    pub public_signing_key: Option<Seq<u8>>,
    pub signature: Option<Seq<u8>>,
}

/// One hop of a transform chain as a record.
pub struct TransformBlockRecord {
    pub public_key: Option<PublicKeyRecord>,
    pub encrypted_temp_key: Option<Seq<u8>>,
    pub random_transform_public_key: Option<PublicKeyRecord>,
    pub random_transform_encrypted_temp_key: Option<Seq<u8>>,
}

/// An encrypted value as a record. Which variant it is shows only in its
/// chain: empty for a value encrypted once, non-empty for a transformed one.
pub struct EncryptedValueRecord {
    pub ephemeral_public_key: Option<PublicKeyRecord>,
    pub encrypted_message: Option<Seq<u8>>,
    pub auth_hash: Option<Seq<u8>>,
    pub public_signing_key: Option<Seq<u8>>,
    pub signature: Option<Seq<u8>>,
    pub transform_blocks: Option<Seq<TransformBlockRecord>>,
}

/// A scalar of the engine's private-key field.
#[derive(Clone, Copy, Debug, PartialEq, Eq)]
pub struct PrivateKey {
    pub bytes: [u8; 32],
}

/// The two coordinates of a curve point. Whether the point lies on the curve
/// is for the engine to say.
#[derive(Clone, Copy, Debug, PartialEq, Eq)]
pub struct PublicKey {
    pub x: [u8; 32],
    pub y: [u8; 32],
}

/// An Ed25519 signing key pair.
#[derive(Clone, Copy, Debug, PartialEq, Eq)]
pub struct SigningKeyPair {
    pub private_key: [u8; 64],
    pub public_key: [u8; 32],
}

/// The engine's fixed-size plaintext.
#[derive(Clone, Copy, Debug, PartialEq, Eq)]
pub struct Plaintext {
    pub bytes: [u8; 384],
}

/// What lets a proxy re-encrypt from one key to another. The signature is
/// over the other fields.
#[derive(Clone, Copy, Debug, PartialEq, Eq)]
pub struct TransformKey {
    pub ephemeral_public_key: PublicKey,
    pub to_public_key: PublicKey,
    pub encrypted_temp_key: [u8; 384],
    pub hashed_temp_key: [u8; 128],
    pub public_signing_key: [u8; 32],
    pub signature: [u8; 64],
}

/// The material of one re-encryption hop.
#[derive(Clone, Copy, Debug, PartialEq, Eq)]
pub struct TransformBlock {
    pub public_key: PublicKey,
    pub encrypted_temp_key: [u8; 384],
    pub random_transform_public_key: PublicKey,
    pub random_transform_encrypted_temp_key: [u8; 384],
}

/// What both variants of an encrypted value carry.
#[derive(Clone, Copy, Debug, PartialEq, Eq)]
pub struct SignedCiphertext {
    pub ephemeral_public_key: PublicKey,
    pub encrypted_message: [u8; 384],
    pub auth_hash: [u8; 32],
    pub public_signing_key: [u8; 32],
    pub signature: [u8; 64],
}

/// The hops of a transformed value, oldest first. There is always at least
/// one.
#[derive(Debug, PartialEq, Eq)]
pub struct TransformChain {
    blocks: Vec<TransformBlock>,
}

/// An encrypted value: encrypted once, or transformed since through a chain
/// of hops.
#[derive(Debug, PartialEq, Eq)]
pub enum EncryptedValue {
    EncryptedOnce { ciphertext: SignedCiphertext },
    Transformed { ciphertext: SignedCiphertext, transform_blocks: TransformChain },
}

impl View for PublicKey {
    type V = PublicKeyRecord;

    open spec fn view(&self) -> PublicKeyRecord {
        PublicKeyRecord { x: Some(self.x@), y: Some(self.y@) }
    }
}

impl View for TransformKey {
    type V = TransformKeyRecord;

    open spec fn view(&self) -> TransformKeyRecord {
        TransformKeyRecord {
            ephemeral_public_key: Some(self.ephemeral_public_key@),
            to_public_key: Some(self.to_public_key@),
            encrypted_temp_key: Some(self.encrypted_temp_key@),
            hashed_temp_key: Some(self.hashed_temp_key@),
            public_signing_key: Some(self.public_signing_key@),
            signature: Some(self.signature@),
        }
    }
}

/// The bytes that the signature of a transform key is over: the fields one
/// after the other, the two public keys by their coordinates, the signature
/// itself left out.
pub open spec fn transform_key_signable_bytes(key: TransformKeyRecord) -> Seq<u8> {
    key.ephemeral_public_key->0.x->0 + key.ephemeral_public_key->0.y->0
        + key.to_public_key->0.x->0 + key.to_public_key->0.y->0 + key.encrypted_temp_key->0
        + key.hashed_temp_key->0 + key.public_signing_key->0
}

impl View for TransformBlock {
    type V = TransformBlockRecord;

    open spec fn view(&self) -> TransformBlockRecord {
        TransformBlockRecord {
            public_key: Some(self.public_key@),
            encrypted_temp_key: Some(self.encrypted_temp_key@),
            random_transform_public_key: Some(self.random_transform_public_key@),
            random_transform_encrypted_temp_key: Some(self.random_transform_encrypted_temp_key@),
        }
    }
}

/// The records of a sequence of blocks, in the same order.
pub open spec fn block_records(blocks: Seq<TransformBlock>) -> Seq<TransformBlockRecord> {
    blocks.map_values(|b: TransformBlock| b@)
}

impl View for TransformChain {
    type V = Seq<TransformBlock>;

    closed spec fn view(&self) -> Seq<TransformBlock> {
        self.blocks@
    }
}

impl TransformChain {
    /// A chain holds at least one block.
    #[verifier::type_invariant]
    pub open spec fn wf(&self) -> bool {
        self@.len() >= 1
    }

    /// The chain of the given blocks, in their order; `None` if there is none.
    pub fn new(blocks: Vec<TransformBlock>) -> (r: Option<TransformChain>)
        ensures
            blocks@.len() == 0 ==> r is None,
            blocks@.len() > 0 ==> r is Some && r->0@ == blocks@,
    {
        if blocks.len() == 0 {
            None
        } else {
            Some(TransformChain { blocks })
        }
    }

    /// How many hops the chain has.
    pub fn len(&self) -> (r: usize)
        ensures
            r == self@.len(),
            r >= 1,
    {
        proof {
            use_type_invariant(self);
        }
        self.blocks.len()
    }

    /// The blocks, oldest hop first.
    pub fn as_slice(&self) -> (r: &[TransformBlock])
        ensures
            r@ == self@,
            r@.len() >= 1,
    {
        proof {
            use_type_invariant(self);
        }
        self.blocks.as_slice()
    }
}

impl Clone for TransformChain {
    fn clone(&self) -> (r: TransformChain)
        ensures
            r@ == self@,
    {
        proof {
            use_type_invariant(self);
        }
        let mut blocks: Vec<TransformBlock> = Vec::new();
        let mut i: usize = 0;
        while i < self.blocks.len()
            invariant
                i <= self.blocks@.len(),
                blocks@ == self.blocks@.subrange(0, i as int),
            decreases self.blocks@.len() - i,
        {
            blocks.push(self.blocks[i]);
            i = i + 1;
        }
        TransformChain { blocks }
    }
}

impl SignedCiphertext {
    /// The record of a value with this ciphertext and the given chain.
    pub open spec fn record(&self, blocks: Seq<TransformBlock>) -> EncryptedValueRecord {
        EncryptedValueRecord {
            ephemeral_public_key: Some(self.ephemeral_public_key@),
            encrypted_message: Some(self.encrypted_message@),
            auth_hash: Some(self.auth_hash@),
            public_signing_key: Some(self.public_signing_key@),
            signature: Some(self.signature@),
            transform_blocks: Some(block_records(blocks)),
        }
    }
}

impl EncryptedValue {
    /// What both variants carry.
    pub open spec fn spec_ciphertext(&self) -> SignedCiphertext {
        match *self {
            EncryptedValue::EncryptedOnce { ciphertext } => ciphertext,
            EncryptedValue::Transformed { ciphertext, .. } => ciphertext,
        }
    }

    /// The hops the value has been through: none for a value encrypted once.
    pub open spec fn spec_blocks(&self) -> Seq<TransformBlock> {
        match *self {
            EncryptedValue::EncryptedOnce { .. } => Seq::empty(),
            EncryptedValue::Transformed { transform_blocks, .. } => transform_blocks@,
        }
    }

    /// A transformed value has a chain of at least one hop.
    pub open spec fn wf(&self) -> bool {
        match *self {
            EncryptedValue::EncryptedOnce { .. } => true,
            EncryptedValue::Transformed { transform_blocks, .. } => transform_blocks.wf(),
        }
    }

    /// What both variants carry.
    #[verifier::when_used_as_spec(spec_ciphertext)]
    pub fn ciphertext(&self) -> (r: SignedCiphertext)
        ensures
            r == self.spec_ciphertext(),
    {
        match self {
            EncryptedValue::EncryptedOnce { ciphertext } => *ciphertext,
            EncryptedValue::Transformed { ciphertext, .. } => *ciphertext,
        }
    }

    /// How many hops the value has been through.
    pub fn hops(&self) -> (r: usize)
        ensures
            r == self.spec_blocks().len(),
            (r == 0) == (self is EncryptedOnce),
    {
        match self {
            EncryptedValue::EncryptedOnce { .. } => 0,
            EncryptedValue::Transformed { transform_blocks, .. } => transform_blocks.len(),
        }
    }
}

impl Clone for EncryptedValue {
    fn clone(&self) -> (r: EncryptedValue)
        ensures
            r.spec_ciphertext() == self.spec_ciphertext(),
            r.spec_blocks() == self.spec_blocks(),
            (r is EncryptedOnce) == (self is EncryptedOnce),
    {
        match self {
            EncryptedValue::EncryptedOnce { ciphertext } => EncryptedValue::EncryptedOnce {
                ciphertext: *ciphertext,
            },
            EncryptedValue::Transformed { ciphertext, transform_blocks } => EncryptedValue::Transformed {
                ciphertext: *ciphertext,
                transform_blocks: transform_blocks.clone(),
            },
        }
    }
}

impl View for EncryptedValue {
    type V = EncryptedValueRecord;

    open spec fn view(&self) -> EncryptedValueRecord {
        self.spec_ciphertext().record(self.spec_blocks())
    }
}

} // verus!
