//! The base node's readiness checker: the node is ready when its
//! local chain height has caught up with the network tip.  The
//! caller polls the node for the two heights; the judgement on
//! them is made here.

use vstd::prelude::*;

use crate::image::checker::CheckerEvent;

verus! {

/// The sync progress in whole percent, never above one hundred;
/// zero while the tip is still unknown.
pub open spec fn sync_percent(local_height: u64, tip_height: u64) -> int {
    if tip_height == 0 {
        0
    } else if local_height >= tip_height {
        100
    } else {
        (local_height * 100) / (tip_height as int)
    }
}

/// Judges the readiness of the base node from one poll of its sync
/// state.
pub struct Checker {}

impl Checker {
    pub fn new() -> (r: Self) {
        Checker {  }
    }

    /// The signal one poll of the heights yields: `Ready` exactly
    /// when the local height has reached a non-zero tip, a
    /// progress report otherwise.
    pub fn evaluate(&self, local_height: u64, tip_height: u64) -> (r: CheckerEvent)
        ensures
            local_height == tip_height && tip_height != 0 ==> r == CheckerEvent::Ready,
            !(local_height == tip_height && tip_height != 0) ==> r == CheckerEvent::Progress(
                sync_percent(local_height, tip_height) as u8,
            ),
    {
        if local_height == tip_height && tip_height != 0 {
            CheckerEvent::Ready
        } else if tip_height == 0 {
            CheckerEvent::Progress(0)
        } else if local_height >= tip_height {
            CheckerEvent::Progress(100)
        } else {
            let pct = ((local_height as u128) * 100) / (tip_height as u128);
            proof {
                assert(local_height as int * 100 < tip_height as int * 100) by (nonlinear_arith)
                    requires
                        local_height < tip_height,
                ;
                vstd::arithmetic::div_mod::lemma_multiply_divide_lt(
                    local_height as int * 100,
                    tip_height as int,
                    100,
                );
            }
            CheckerEvent::Progress(pct as u8)
        }
    }
}

} // verus!
