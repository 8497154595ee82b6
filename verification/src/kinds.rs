//! The kinds that a payload of a reference counted pointer must have.
//!
//! A cycle of reference counted cells needs a cell that is both aliased and
//! changed after it was made. A payload that owns everything it holds (`Send`)
//! cannot alias a cell of its own task, and a payload that is deeply immutable
//! (`Freeze`) cannot be changed, so either kind keeps the cells free of cycles.

use vstd::prelude::*;

verus! {

/// Types that own what they hold and may be handed over to another task.
pub trait Send {

}

impl<T: core::marker::Send> Send for T {

}

/// Types that are deeply immutable: no part of a value can change once the
/// value is made.
pub trait Freeze {

}

impl Freeze for () {

}

impl Freeze for bool {

}

impl Freeze for char {

}

impl Freeze for u8 {

}

impl Freeze for u16 {

}

impl Freeze for u32 {

}

impl Freeze for u64 {

}

impl Freeze for u128 {

}

impl Freeze for usize {

}

impl Freeze for i8 {

}

impl Freeze for i16 {

}

impl Freeze for i32 {

}

impl Freeze for i64 {

}

impl Freeze for i128 {

}

impl Freeze for isize {

}

impl Freeze for String {

}

impl<T: Freeze> Freeze for Option<T> {

}

impl<T: Freeze> Freeze for Box<T> {

}

impl<T: Freeze> Freeze for Vec<T> {

}

impl<A: Freeze, B: Freeze> Freeze for (A, B) {

}

} // verus!
