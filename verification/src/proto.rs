//! Constants shared by every backend.

use vstd::prelude::*;

verus! {

/// The maximum transmission unit given to every interface at bring-up.
pub const MTU: usize = 1450;

} // verus!
