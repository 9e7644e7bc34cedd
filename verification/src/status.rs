//! Numeric reply codes of the control channel.
use vstd::prelude::*;

verus! {

/// A three-digit reply code.
pub type Status = u16;

} // verus!
