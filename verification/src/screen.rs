use vstd::prelude::*;

verus! {

/// The draw target threaded through the execute cycle.
///
/// The pixel format and the buffer representation belong to the display
/// component, not to the CPU core: the core only hands the screen on to
/// the instruction executor, and the machine-control instruction family
/// never draws, so the core's contracts state that it leaves the screen
/// untouched.
pub struct Screen {}

} // verus!
