//! Host side of a sandbox boundary: bounds-checked access to guest linear
//! memory, the error taxonomy and its integer result codes, and the
//! marshaling and dispatch of the operations exposed to the guest.
use vstd::prelude::*;

pub mod error;
pub mod memory;
pub mod host;
pub mod dispatch;
pub mod marshal;

pub use host::MLApiHost;

verus! {

} // verus!
