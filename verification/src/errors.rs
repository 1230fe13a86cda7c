use vstd::prelude::*;

verus! {

/// The failures the machine core can report. Every fallible operation
/// returns one of these to its caller; the core never panics, logs or
/// retries, and recovery policy belongs to the driving loop.
#[derive(Clone, Copy, PartialEq, Eq, Structural, Debug)]
pub enum ChipError {
    /// A push was attempted while the call stack was already at capacity.
    /// Carries the stack's length.
    StackOverflow(usize),
    /// A pop was attempted on an empty call stack.
    StackUnderflow(),
    /// A memory access would read or write past the end of the
    /// addressable space. Carries the offending address and the first
    /// address past the accessible range.
    AddressOutOfBounds { address: usize, limit: usize },
    /// The executor was handed an instruction word outside the families
    /// it interprets itself.
    UnsupportedOpcode(u16),
}

} // verus!
