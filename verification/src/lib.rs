//! Shared value types: namespaced keys with their textual form, and the
//! length rule for vectors that are written as sequences of scalars.

pub mod grammar;
pub mod hashing;
pub mod namespace_key;
pub mod sequence;

pub use namespace_key::{
    BadNamespacedKeyError, NameSpaceKey, NameSpaceRef, NamespacedKey, OwnedNameSpaceKey,
};
