use vstd::prelude::*;

verus! {

/// A raw exception reply: the function byte as received and the exception byte.
#[derive(Debug, Clone, Copy, PartialEq, Eq, Structural)]
pub struct Exception {
    pub function: u8,
    pub code: u8,
}

} // verus!
