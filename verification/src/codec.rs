//! The fixed wire format of keys and key roles.
//!
//! A [`Key`] serializes as its 32 raw bytes, with no length prefix and no
//! tag. A [`KeyType`] serializes as a single discriminant byte, followed by
//! the tag byte for the `Custom` variant only. Decoding accepts exactly the
//! byte strings that encoding produces, so the format round-trips.

use vstd::prelude::*;

use crate::key::spec_key_of;
use crate::key::Key;
use crate::key::KeyType;
use crate::key::KEY_SIZE;

verus! {

broadcast use crate::key::lemma_key_len;

/// The wire form of a key: its 32-byte representation, verbatim.
pub open spec fn spec_encode_key(k: Key) -> Seq<u8> {
    k@
}

/// The key a wire string decodes to: the key with representation `b` when
/// `b` has full width, nothing otherwise.
pub open spec fn spec_decode_key(b: Seq<u8>) -> Option<Key> {
    if b.len() == KEY_SIZE {
        Some(spec_key_of(b))
    } else {
        None
    }
}

/// The wire form of a key role: its discriminant byte, then the tag byte for
/// `Custom` alone.
pub open spec fn spec_encode_key_type(t: KeyType) -> Seq<u8> {
    match t {
        KeyType::External => seq![0u8],
        KeyType::Identity => seq![1u8],
        KeyType::Multisig => seq![2u8],
        KeyType::Relayer => seq![3u8],
        KeyType::Custom(n) => seq![4u8, n],
    }
}

/// The key role a wire string decodes to, if it is the wire form of one.
pub open spec fn spec_decode_key_type(b: Seq<u8>) -> Option<KeyType> {
    if b.len() == 1 {
        if b[0] == 0u8 {
            Some(KeyType::External)
        } else if b[0] == 1u8 {
            Some(KeyType::Identity)
        } else if b[0] == 2u8 {
            Some(KeyType::Multisig)
        } else if b[0] == 3u8 {
            Some(KeyType::Relayer)
        } else {
            None
        }
    } else if b.len() == 2 && b[0] == 4u8 {
        Some(KeyType::Custom(b[1]))
    } else {
        None
    }
}

/// Law: decoding the encoding of a key yields that key back.
pub proof fn lemma_key_codec_round_trip(k: Key)
    ensures
        spec_decode_key(spec_encode_key(k)) == Some(k),
{
    crate::key::lemma_spec_key_of_view(k);
}

/// Law: decoding the encoding of a key role yields that role back.
pub proof fn lemma_key_type_codec_round_trip(t: KeyType)
    ensures
        spec_decode_key_type(spec_encode_key_type(t)) == Some(t),
{
}

impl Key {
    /// Serializes this key as its 32 raw bytes.
    pub fn encode(&self) -> (r: Vec<u8>)
        ensures
            r@ == spec_encode_key(*self),
    {
        vstd::slice::slice_to_vec(self.as_bytes())
    }

    /// Deserializes a key from its exact wire form: a full-width byte string
    /// is the representation of the result, and nothing else is accepted.
    pub fn decode(b: &[u8]) -> (r: Option<Key>)
        ensures
            r == spec_decode_key(b@),
            match r {
                Some(k) => b@.len() == KEY_SIZE && k@ == b@,
                None => b@.len() != KEY_SIZE,
            },
    {
        if b.len() == KEY_SIZE {
            match Key::try_from(b) {
                Ok(k) => {
                    proof {
                        crate::key::lemma_spec_key_of_view(k);
                    }
                    Some(k)
                },
                Err(_) => None,
            }
        } else {
            None
        }
    }
}

impl KeyType {
    /// Serializes this role as its discriminant byte, with the tag byte
    /// appended for `Custom`.
    pub fn encode(&self) -> (r: Vec<u8>)
        ensures
            r@ == spec_encode_key_type(*self),
    {
        let mut v: Vec<u8> = Vec::new();
        match self {
            KeyType::External => v.push(0u8),
            KeyType::Identity => v.push(1u8),
            KeyType::Multisig => v.push(2u8),
            KeyType::Relayer => v.push(3u8),
            KeyType::Custom(n) => {
                v.push(4u8);
                v.push(*n);
            },
        }
        proof {
            assert(v@ =~= spec_encode_key_type(*self));
        }
        v
    }

    /// Deserializes a role from its exact wire form.
    pub fn decode(b: &[u8]) -> (r: Option<KeyType>)
        ensures
            r == spec_decode_key_type(b@),
    {
        if b.len() == 1 {
            let t = b[0];
            if t == 0u8 {
                Some(KeyType::External)
            } else if t == 1u8 {
                Some(KeyType::Identity)
            } else if t == 2u8 {
                Some(KeyType::Multisig)
            } else if t == 3u8 {
                Some(KeyType::Relayer)
            } else {
                None
            }
        } else if b.len() == 2 && b[0] == 4u8 {
            Some(KeyType::Custom(b[1]))
        } else {
            None
        }
    }
}

} // verus!
