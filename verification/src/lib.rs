//! Building blocks for code that is tested both on real threads and under a
//! thread-interleaving explorer: a cell that grants access to its value only
//! for the extent of a callback, and the entry point that runs a test body
//! once, on the spot.
//!
//! The explorer's own entry point is not wrapped here: how often it runs a
//! body, and whether it returns at all, depends on its search and on limits
//! that it reads from the environment, so no contract over the body alone
//! would be true of it.

use vstd::prelude::*;

pub mod cell;

verus! {

/// Runs `f` exactly once, synchronously, and returns when it has returned.
///
/// Nothing is retried and nothing is explored: whatever `f` establishes by
/// returning holds afterwards.
#[inline(always)]
pub fn model<F: FnOnce()>(f: F)
    requires
        f.requires(()),
    ensures
        f.ensures((), ()),
{
    f()
}

} // verus!
