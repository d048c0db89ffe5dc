use vstd::prelude::*;

verus! {

/// IEEE-754 bit pattern of the default load-average threshold, 0.7, served
/// when a scaled object supplies no valid override of its own.
pub const DEFAULT_LOAD_AVG_THRESHOLD_BITS: u64 = 0x3FE6_6666_6666_6666;

/// An opaque load or threshold value: the 64-bit IEEE-754 pattern of the
/// number carried on the wire. The core stores these values and hands them
/// back unchanged; it never does arithmetic on them, so it keeps only the
/// bits. The conversion to and from a machine float happens at the process
/// edge, outside this library.
#[derive(Clone, Copy, Debug, PartialEq, Eq, Structural)]
pub struct Scalar {
    pub bits: u64,
}

} // verus!
