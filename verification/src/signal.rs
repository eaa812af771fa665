//! What travels from the event loop to the render loop.

use vstd::prelude::*;

verus! {

/// A surface size in physical pixels.
#[derive(Clone, Copy, Debug, PartialEq, Eq, Structural)]
pub struct Size {
    pub width: u32,
    pub height: u32,
}

/// The newest of the sizes that were pending, oldest first; none where nothing was pending.
pub open spec fn newest(pending: Seq<Size>) -> Option<Size> {
    if pending.len() == 0 {
        None
    } else {
        Some(pending.last())
    }
}

/// Picks the size that a drain of the resize channel leaves to apply: the last one sent.
pub fn latest(pending: &Vec<Size>) -> (kept: Option<Size>)
    ensures
        kept == newest(pending@),
{
    let n: usize = pending.len();
    if n == 0 {
        None
    } else {
        Some(pending[n - 1])
    }
}

} // verus!
