//! Simulated collaborators: in-memory implementations of the [`Window`],
//! [`Device`] and [`Factory`] contracts that record what reaches them.
//!
//! They stand in for a real backend wherever one is not available — a
//! harness can drive a whole frame cycle against them — and they show that
//! each collaborator contract is implementable as stated.

use vstd::prelude::*;
use crate::canvas::{Device, Factory, Renderer, Window};

verus! {

/// Copies a command buffer element by element.
fn copy_commands(buffer: &Vec<u64>) -> (r: Vec<u64>)
    ensures
        r@ == buffer@,
{
    let mut r: Vec<u64> = Vec::new();
    let mut i: usize = 0;
    while i < buffer.len()
        invariant
            i <= buffer.len(),
            r@ == buffer@.subrange(0, i as int),
        decreases buffer.len() - i,
    {
        r.push(buffer[i]);
        i = i + 1;
        proof {
            assert(r@ =~= buffer@.subrange(0, i as int));
        }
    }
    proof {
        assert(r@ =~= buffer@);
    }
    r
}

/// A window that only counts its buffer swaps.
pub struct SimWindow {
    /// One mark per completed swap.
    pub swap_marks: Vec<bool>,
}

impl Window for SimWindow {
    open spec fn swaps(&self) -> nat {
        self.swap_marks@.len()
    }

    fn swap_buffers(&mut self) {
        self.swap_marks.push(true);
    }
}

/// A device that keeps every submitted command buffer and counts the frame
/// boundaries it acknowledged.
pub struct SimDevice {
    /// The submitted command buffers, oldest first.
    pub submissions: Vec<Vec<u64>>,
    /// One mark per acknowledged frame boundary.
    pub frame_marks: Vec<bool>,
}

impl Device for SimDevice {
    open spec fn submitted(&self) -> Seq<Seq<u64>> {
        self.submissions@.map_values(|b: Vec<u64>| b@)
    }

    open spec fn frames_ended(&self) -> nat {
        self.frame_marks@.len()
    }

    fn submit(&mut self, buffer: &Vec<u64>) {
        let copy = copy_commands(buffer);
        self.submissions.push(copy);
        proof {
            assert(self.submissions@.map_values(|b: Vec<u64>| b@) =~= old(
                self,
            ).submissions@.map_values(|b: Vec<u64>| b@).push(buffer@));
        }
    }

    fn after_frame(&mut self) {
        self.frame_marks.push(true);
    }
}

/// A factory that only counts its cleanups and hands out fresh renderers.
pub struct SimFactory {
    /// One mark per completed cleanup.
    pub cleanup_marks: Vec<bool>,
}

impl Factory for SimFactory {
    open spec fn cleanups(&self) -> nat {
        self.cleanup_marks@.len()
    }

    fn create_renderer(&mut self) -> (r: Renderer) {
        Renderer::new()
    }

    fn cleanup(&mut self) {
        self.cleanup_marks.push(true);
    }
}

} // verus!
