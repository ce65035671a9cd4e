use vstd::prelude::*;

use crate::errors::PQCError;

verus! {

/// The key material every freshly generated bundle starts from.
///
/// Key generation is deterministic by design: the library's registry and
/// verification logic is independent of how key material is produced, and a
/// deterministic capability keeps signing and verification reproducible.
pub open spec fn generated_key() -> Seq<u8> {
    seq![0x51u8, 0x4bu8, 0x31u8, 0x00u8]
}

/// The signature that key material `key` produces over `msg`: the key
/// material followed by the message bytes. A signature is authentic for a
/// bundle exactly when it equals this sequence.
pub open spec fn sign_bytes(key: Seq<u8>, msg: Seq<u8>) -> Seq<u8> {
    key + msg
}

/// A pairing of signing and verifying key material for block proposals.
///
/// The scheme is a deterministic tag: `sign` emits the bundle's key material
/// followed by the message, and `verify` recomputes that tag and compares.
/// Signing and verifying with the same bundle therefore always agree, and a
/// signature over one message never verifies against a different message.
#[derive(Debug, Clone)]
pub struct KeyBundle {
    key_material: Vec<u8>,
}

impl KeyBundle {
    /// The bundle's key material, as the mathematical sequence of its bytes.
    pub closed spec fn key(&self) -> Seq<u8> {
        self.key_material@
    }

    /// Create a bundle holding the fixed starting key material.
    pub fn generate() -> (r: Result<KeyBundle, PQCError>)
        ensures
            r is Ok,
            r->Ok_0.key() == generated_key(),
    {
        let mut key_material: Vec<u8> = Vec::new();
        key_material.push(0x51u8);
        key_material.push(0x4bu8);
        key_material.push(0x31u8);
        key_material.push(0x00u8);
        proof {
            assert(key_material@ =~= generated_key());
        }
        Ok(KeyBundle { key_material })
    }

    /// Create a bundle whose key material is exactly `seed`.
    pub fn from_seed(seed: &[u8]) -> (r: KeyBundle)
        ensures
            r.key() == seed@,
    {
        let mut key_material: Vec<u8> = Vec::new();
        key_material.extend_from_slice(seed);
        proof {
            assert(key_material@ =~= seed@);
        }
        KeyBundle { key_material }
    }

    /// The bundle's key material bytes.
    pub fn key_bytes(&self) -> (r: &Vec<u8>)
        ensures
            r@ == self.key(),
    {
        &self.key_material
    }

    /// Sign `message`: the signature is the key material followed by the
    /// message bytes.
    pub fn sign(&self, message: &[u8]) -> (r: Result<Vec<u8>, PQCError>)
        ensures
            r is Ok,
            r->Ok_0@ == sign_bytes(self.key(), message@),
    {
        let mut signature: Vec<u8> = Vec::new();
        signature.extend_from_slice(self.key_material.as_slice());
        signature.extend_from_slice(message);
        proof {
            assert(signature@ =~= sign_bytes(self.key(), message@));
        }
        Ok(signature)
    }

    /// Check whether `signature` is this bundle's signature over `message`.
    pub fn verify(&self, message: &[u8], signature: &[u8]) -> (r: Result<bool, PQCError>)
        ensures
            r is Ok,
            r->Ok_0 == (signature@ == sign_bytes(self.key(), message@)),
    {
        let key_len = self.key_material.len();
        if signature.len() < key_len || signature.len() - key_len != message.len() {
            proof {
                assert(signature@.len() != sign_bytes(self.key(), message@).len());
            }
            return Ok(false);
        }
        let mut i: usize = 0;
        while i < key_len
            invariant
                0 <= i <= key_len,
                key_len == self.key_material@.len(),
                signature@.len() == key_len + message@.len(),
                forall|j: int| 0 <= j < i ==> signature@[j] == self.key_material@[j],
            decreases key_len - i,
        {
            if signature[i] != self.key_material[i] {
                proof {
                    assert(signature@[i as int] != sign_bytes(self.key(), message@)[i as int]);
                }
                return Ok(false);
            }
            i = i + 1;
        }
        let sig_len = signature.len();
        let mut j: usize = 0;
        while j < message.len()
            invariant
                0 <= j <= message@.len(),
                key_len == self.key_material@.len(),
                sig_len == signature@.len(),
                signature@.len() == key_len + message@.len(),
                forall|k: int| 0 <= k < key_len ==> signature@[k] == self.key_material@[k],
                forall|k: int| 0 <= k < j ==> signature@[key_len + k] == message@[k],
            decreases message@.len() - j,
        {
            if signature[key_len + j] != message[j] {
                proof {
                    assert(signature@[key_len + j] != sign_bytes(self.key(), message@)[key_len + j]);
                }
                return Ok(false);
            }
            j = j + 1;
        }
        proof {
            assert(signature@ =~= sign_bytes(self.key(), message@));
        }
        Ok(true)
    }
}

} // verus!
