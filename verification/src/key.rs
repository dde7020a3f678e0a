//! The [`Key`] and [`KeyType`] value types: construction and equality.

use vstd::prelude::*;

verus! {

use vstd::string::StringSliceAdditionalSpecFns;

/// Width in bytes of a full key.
pub const KEY_SIZE: usize = 32;

/// Width in bytes of a short ("test"-width) key source; a key built from a
/// source of this width has its remaining bytes set to zero.
pub const KEY_SIZE_TEST: usize = 8;

/// Role of a signing key.
#[derive(Copy, Clone, PartialEq, Eq, Structural, Debug)]
pub enum KeyType {
    External,
    Identity,
    Multisig,
    Relayer,
    Custom(u8),
}

impl Default for KeyType {
    /// The default key role is `External`.
    fn default() -> (r: Self)
        ensures
            r == KeyType::External,
    {
        KeyType::External
    }
}

/// Law: a custom key role is distinct from every built-in role, and custom
/// roles with distinct tags are distinct.
pub proof fn lemma_key_type_custom_distinct(n: u8, m: u8)
    ensures
        KeyType::Custom(n) != KeyType::External,
        KeyType::Custom(n) != KeyType::Identity,
        KeyType::Custom(n) != KeyType::Multisig,
        KeyType::Custom(n) != KeyType::Relayer,
        n != m ==> KeyType::Custom(n) != KeyType::Custom(m),
{
}

/// The single construction error: the source had a length other than
/// [`KEY_SIZE`] or [`KEY_SIZE_TEST`].
#[derive(Copy, Clone, PartialEq, Eq, Structural, Debug)]
pub enum KeyError {
    InvalidSize,
}

/// A simple key, stored at a fixed size to avoid dynamic memory allocation.
///
/// The representation is always exactly [`KEY_SIZE`] bytes; a key built from
/// a [`KEY_SIZE_TEST`]-byte source holds that source in its first bytes and
/// zero in the rest.
#[derive(Clone, Eq, Ord, Debug)]
pub struct Key {
    bytes: [u8; KEY_SIZE],
}

impl View for Key {
    type V = Seq<u8>;

    closed spec fn view(&self) -> Seq<u8> {
        self.bytes@
    }
}

/// A key's representation is always exactly [`KEY_SIZE`] bytes long.
pub broadcast proof fn lemma_key_len(k: Key)
    ensures
        (#[trigger] k@.len()) == KEY_SIZE,
{
}

/// Whether `n` is a sanctioned source length for building a key.
pub open spec fn spec_valid_len(n: nat) -> bool {
    n == KEY_SIZE || n == KEY_SIZE_TEST
}

/// The 32-byte representation a key built from source `s` holds: `s` itself
/// at full width, or `s` followed by zeros at test width.
pub open spec fn spec_key_bytes_of(s: Seq<u8>) -> Seq<u8>
    recommends
        spec_valid_len(s.len()),
{
    if s.len() == KEY_SIZE {
        s
    } else {
        s + Seq::new((KEY_SIZE - KEY_SIZE_TEST) as nat, |i: int| 0u8)
    }
}

/// The key whose representation is `s` (for `s` of full width).
pub open spec fn spec_key_of(s: Seq<u8>) -> Key
    recommends
        s.len() == KEY_SIZE,
{
    choose|k: Key| k@ == s
}

/// Two keys with the same representation are the same key, so `spec_key_of`
/// inverts the view.
pub proof fn lemma_spec_key_of_view(k: Key)
    ensures
        spec_key_of(k@) == k,
{
    assert(exists|k2: Key| k2@ == k@) by {
        assert(k@ == k@);
    }
    let k2 = choose|k2: Key| k2@ == k@;
    assert(k2.bytes =~= k.bytes);
}

/// Whether a key whose representation is `key` stands for the raw byte
/// sequence `other`: a full-width sequence must match the whole
/// representation; a test-width sequence must match the leading bytes while
/// the trailing bytes are zero; no other length ever matches.
pub open spec fn spec_matches(key: Seq<u8>, other: Seq<u8>) -> bool
    recommends
        key.len() == KEY_SIZE,
{
    if other.len() == KEY_SIZE {
        key == other
    } else if other.len() == KEY_SIZE_TEST {
        key.subrange(0, KEY_SIZE_TEST as int) == other && (forall|i: int|
            KEY_SIZE_TEST <= i < KEY_SIZE ==> key[i] == 0u8)
    } else {
        false
    }
}

/// Law: a key built from a sanctioned source matches that source under the
/// cross-representation equality rule.
pub proof fn lemma_built_key_matches_source(s: Seq<u8>)
    requires
        spec_valid_len(s.len()),
    ensures
        spec_matches(spec_key_bytes_of(s), s),
{
    let key = spec_key_bytes_of(s);
    if s.len() == KEY_SIZE_TEST {
        assert(key.subrange(0, KEY_SIZE_TEST as int) =~= s);
        assert(forall|i: int| KEY_SIZE_TEST <= i < KEY_SIZE ==> key[i] == 0u8);
    }
}

impl Default for Key {
    /// The default key is all zero.
    fn default() -> (r: Self)
        ensures
            r@ == Seq::new(KEY_SIZE as nat, |i: int| 0u8),
    {
        let r = Key { bytes: [0u8; KEY_SIZE] };
        proof {
            assert(r@ =~= Seq::new(KEY_SIZE as nat, |i: int| 0u8));
        }
        r
    }
}

impl From<[u8; KEY_SIZE]> for Key {
    /// Wraps a full-width byte array directly; this path cannot fail.
    fn from(s: [u8; KEY_SIZE]) -> (r: Self)
        ensures
            r@ == s@,
    {
        Key { bytes: s }
    }
}

impl vstd::std_specs::convert::FromSpecImpl<[u8; KEY_SIZE]> for Key {
    open spec fn obeys_from_spec() -> bool {
        true
    }

    closed spec fn from_spec(s: [u8; KEY_SIZE]) -> Key {
        Key { bytes: s }
    }
}

impl TryFrom<&[u8]> for Key {
    type Error = KeyError;

    /// Builds a key from a byte slice of length [`KEY_SIZE`] (copied
    /// verbatim) or [`KEY_SIZE_TEST`] (copied and zero-padded); any other
    /// length is rejected with [`KeyError::InvalidSize`].
    fn try_from(s: &[u8]) -> (r: Result<Self, Self::Error>)
        ensures
            match r {
                Ok(k) => spec_valid_len(s@.len()) && k@ == spec_key_bytes_of(s@),
                Err(e) => !spec_valid_len(s@.len()) && e == KeyError::InvalidSize,
            },
    {
        let n = s.len();
        if n == KEY_SIZE || n == KEY_SIZE_TEST {
            let mut bytes: [u8; KEY_SIZE] = [0u8; KEY_SIZE];
            let mut i: usize = 0;
            while i < n
                invariant
                    n == s@.len(),
                    n == KEY_SIZE || n == KEY_SIZE_TEST,
                    i <= n,
                    forall|j: int| 0 <= j < i ==> bytes@[j] == s@[j],
                    forall|j: int| i <= j < KEY_SIZE ==> bytes@[j] == 0u8,
                decreases n - i,
            {
                bytes[i] = s[i];
                i += 1;
            }
            let k = Key { bytes };
            proof {
                assert(k@ =~= spec_key_bytes_of(s@));
                lemma_spec_key_of_view(k);
            }
            Ok(k)
        } else {
            Err(KeyError::InvalidSize)
        }
    }
}

impl vstd::std_specs::convert::TryFromSpecImpl<&[u8]> for Key {
    open spec fn obeys_try_from_spec() -> bool {
        true
    }

    open spec fn try_from_spec(s: &[u8]) -> Result<Key, KeyError> {
        if spec_valid_len(s@.len()) {
            Ok(spec_key_of(spec_key_bytes_of(s@)))
        } else {
            Err(KeyError::InvalidSize)
        }
    }
}

impl TryFrom<Vec<u8>> for Key {
    type Error = KeyError;

    /// Builds a key from an owned byte buffer, under the slice length rule.
    fn try_from(v: Vec<u8>) -> (r: Result<Self, Self::Error>)
        ensures
            match r {
                Ok(k) => spec_valid_len(v@.len()) && k@ == spec_key_bytes_of(v@),
                Err(e) => !spec_valid_len(v@.len()) && e == KeyError::InvalidSize,
            },
    {
        Key::try_from(v.as_slice())
    }
}

impl vstd::std_specs::convert::TryFromSpecImpl<Vec<u8>> for Key {
    open spec fn obeys_try_from_spec() -> bool {
        true
    }

    open spec fn try_from_spec(v: Vec<u8>) -> Result<Key, KeyError> {
        if spec_valid_len(v@.len()) {
            Ok(spec_key_of(spec_key_bytes_of(v@)))
        } else {
            Err(KeyError::InvalidSize)
        }
    }
}

impl TryFrom<&Vec<u8>> for Key {
    type Error = KeyError;

    /// Builds a key from a borrowed byte buffer, under the slice length rule.
    fn try_from(v: &Vec<u8>) -> (r: Result<Self, Self::Error>)
        ensures
            match r {
                Ok(k) => spec_valid_len(v@.len()) && k@ == spec_key_bytes_of(v@),
                Err(e) => !spec_valid_len(v@.len()) && e == KeyError::InvalidSize,
            },
    {
        Key::try_from(v.as_slice())
    }
}

impl vstd::std_specs::convert::TryFromSpecImpl<&Vec<u8>> for Key {
    open spec fn obeys_try_from_spec() -> bool {
        true
    }

    open spec fn try_from_spec(v: &Vec<u8>) -> Result<Key, KeyError> {
        if spec_valid_len(v@.len()) {
            Ok(spec_key_of(spec_key_bytes_of(v@)))
        } else {
            Err(KeyError::InvalidSize)
        }
    }
}

impl TryFrom<&str> for Key {
    type Error = KeyError;

    /// Builds a key from the raw byte encoding of a text string, under the
    /// slice length rule.
    fn try_from(s: &str) -> (r: Result<Self, Self::Error>)
        ensures
            match r {
                Ok(k) => spec_valid_len(s.spec_bytes().len()) && k@ == spec_key_bytes_of(
                    s.spec_bytes(),
                ),
                Err(e) => !spec_valid_len(s.spec_bytes().len()) && e == KeyError::InvalidSize,
            },
    {
        Key::try_from(s.as_bytes())
    }
}

impl vstd::std_specs::convert::TryFromSpecImpl<&str> for Key {
    open spec fn obeys_try_from_spec() -> bool {
        true
    }

    open spec fn try_from_spec(s: &str) -> Result<Key, KeyError> {
        if spec_valid_len(s.spec_bytes().len()) {
            Ok(spec_key_of(spec_key_bytes_of(s.spec_bytes())))
        } else {
            Err(KeyError::InvalidSize)
        }
    }
}

impl Key {
    /// The raw 32-byte representation.
    pub fn as_bytes(&self) -> (r: &[u8])
        ensures
            r@ == self@,
    {
        self.bytes.as_slice()
    }

    /// Whether the first `n` bytes of `a` and `b` agree.
    fn prefix_equal(a: &[u8], b: &[u8], n: usize) -> (r: bool)
        requires
            n <= a@.len(),
            n <= b@.len(),
        ensures
            r <==> (forall|j: int| 0 <= j < n ==> a@[j] == b@[j]),
    {
        let mut i: usize = 0;
        while i < n
            invariant
                n <= a@.len(),
                n <= b@.len(),
                i <= n,
                forall|j: int| 0 <= j < i ==> a@[j] == b@[j],
            decreases n - i,
        {
            if a[i] != b[i] {
                return false;
            }
            i += 1;
        }
        true
    }

    /// Whether every byte of `a` from `start` on is zero.
    fn zero_from(a: &[u8], start: usize) -> (r: bool)
        requires
            start <= a@.len(),
        ensures
            r <==> (forall|j: int| start <= j < a@.len() ==> a@[j] == 0u8),
    {
        let mut i: usize = start;
        while i < a.len()
            invariant
                start <= i <= a@.len(),
                forall|j: int| start <= j < i ==> a@[j] == 0u8,
            decreases a@.len() - i,
        {
            if a[i] != 0u8 {
                return false;
            }
            i += 1;
        }
        true
    }

    /// Whether this key stands for the raw byte sequence `other`, under the
    /// cross-representation rule of [`spec_matches`].
    pub fn eq_bytes(&self, other: &[u8]) -> (r: bool)
        ensures
            r == spec_matches(self@, other@),
    {
        let me = self.as_bytes();
        let n = other.len();
        if n == KEY_SIZE {
            let r = Key::prefix_equal(me, other, KEY_SIZE);
            proof {
                if r {
                    assert(self@ =~= other@);
                }
            }
            r
        } else if n == KEY_SIZE_TEST {
            let r = Key::prefix_equal(me, other, KEY_SIZE_TEST) && Key::zero_from(
                me,
                KEY_SIZE_TEST,
            );
            proof {
                let front = self@.subrange(0, KEY_SIZE_TEST as int);
                if r {
                    assert(front =~= other@);
                } else if front == other@ {
                    assert(forall|j: int| 0 <= j < KEY_SIZE_TEST ==> self@[j] == front[j]);
                }
            }
            r
        } else {
            false
        }
    }

    /// Whether this key stands for the bytes of the buffer `other`.
    pub fn eq_vec(&self, other: &Vec<u8>) -> (r: bool)
        ensures
            r == spec_matches(self@, other@),
    {
        self.eq_bytes(other.as_slice())
    }
}

impl PartialEq for Key {
    /// Keys are equal exactly when their full representations are equal.
    fn eq(&self, other: &Key) -> (r: bool) {
        self.eq_bytes(other.as_bytes())
    }
}

impl vstd::std_specs::cmp::PartialEqSpecImpl for Key {
    open spec fn obeys_eq_spec() -> bool {
        true
    }

    open spec fn eq_spec(&self, other: &Key) -> bool {
        self@ == other@
    }
}

/// Law: keys with equal representations are the same value, so equality of
/// views is equality of keys.
pub proof fn lemma_key_view_injective(a: Key, b: Key)
    ensures
        a == b <==> a@ == b@,
{
    if a@ == b@ {
        assert(a.bytes =~= b.bytes);
    }
}

} // verus!
