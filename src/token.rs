use vstd::prelude::*;

verus! {

/// Identifies a registered resource and the listener bound to it.
#[derive(Clone, Copy, Debug, PartialEq, Eq, Structural)]
pub struct Token(pub usize);

} // verus!
