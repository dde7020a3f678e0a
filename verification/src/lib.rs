//! Fixed-width key identifiers.
//!
//! A [`Key`] is an opaque 32-byte identifier with validated construction from
//! variable-length byte sources, a byte-lexicographic total order, and
//! equality across raw byte representations. A [`KeyType`] tags the role of a
//! key. Both carry a fixed, deterministic wire format.

pub mod codec;
pub mod key;
pub mod order;

pub use key::Key;
pub use key::KeyError;
pub use key::KeyType;
