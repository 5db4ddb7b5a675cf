//! What the library assumes of std's hashing of text.

use std::hash::{Hash, Hasher};
use vstd::prelude::*;

verus! {

/// `<str as Hash>::hash` feeds the text to the hasher. Nothing is claimed of
/// the hasher's state afterwards: the call only has to be allowed.
pub assume_specification<H: Hasher>[ <str as Hash>::hash ](text: &str, state: &mut H)
;

} // verus!
