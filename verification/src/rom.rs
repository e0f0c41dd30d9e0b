//! A program image.

use vstd::prelude::*;

verus! {

/// The bytes of a program, in the order in which they are loaded.
pub struct Rom {
    pub content: Vec<u8>,
}

} // verus!
