//! The events that change the count of a cell.
//!
//! A cell is made with a count of one. From then on its count changes with
//! every handle that is cloned and every handle that is released, and with
//! nothing else, so that the life of a cell can be told as a sequence of such
//! events.

use vstd::prelude::*;

verus! {

/// One event in the life of a cell: a handle to it is cloned, and the copy is
/// named `id`; or the handle named `id` is released.
pub enum Step {
    Clone { id: nat },
    Release { id: nat },
}

/// How many of `steps` are clones.
pub open spec fn clones(steps: Seq<Step>) -> nat
    decreases steps.len(),
{
    if steps.len() == 0 {
        0
    } else {
        clones(steps.drop_last()) + if steps.last() is Clone {
            1nat
        } else {
            0nat
        }
    }
}

/// How many of `steps` are releases.
pub open spec fn releases(steps: Seq<Step>) -> nat
    decreases steps.len(),
{
    if steps.len() == 0 {
        0
    } else {
        releases(steps.drop_last()) + if steps.last() is Release {
            1nat
        } else {
            0nat
        }
    }
}

} // verus!
