use vstd::prelude::*;

verus! {

/// The process's native representation of one articulated joint: angle,
/// angular velocity and effort. Each is a 64-bit IEEE-754 value carried by
/// its bit pattern, so that schema conversions and the wire codec are
/// bit-exact and never round.
#[derive(Clone, Copy, Debug, PartialEq, Eq, Structural)]
pub struct JointState {
    pub angle_bits: u64,
    pub velocity_bits: u64,
    pub effort_bits: u64,
}

impl Default for JointState {
    /// All three components zero (the bit pattern of positive zero).
    fn default() -> (r: Self)
        ensures
            r == (JointState { angle_bits: 0u64, velocity_bits: 0u64, effort_bits: 0u64 }),
    {
        JointState { angle_bits: 0, velocity_bits: 0, effort_bits: 0 }
    }
}

} // verus!
