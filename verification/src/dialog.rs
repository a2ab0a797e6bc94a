//! The folder picker, as far as the library has a part in it.

use vstd::prelude::*;

verus! {

/// Prepares the folder picker ahead of its first use. The library keeps no
/// picker of its own: a shell that has one prepares it itself, and where the
/// platform has none there is nothing to prepare.
pub fn warm_up() {
}

} // verus!
