//! The values the window exchanges with the runtime that its own logic reads.
use vstd::prelude::*;

verus! {

/// A direction's capture slot: the first and second key of each axis.
#[derive(Clone, Copy, Debug, PartialEq, Eq, Structural)]
pub enum KeySlot {
    VerticalFirst,
    VerticalSecond,
    HorizontalFirst,
    HorizontalSecond,
}

/// A keyboard key as the hardware reports it: its scan code and whether it
/// carries the extended-key prefix.
#[derive(Clone, Copy, Debug, PartialEq, Eq, Structural)]
pub struct PhysicalKey {
    pub scan_code: u16,
    pub extended: bool,
}

impl PhysicalKey {
    pub fn new(scan_code: u16, extended: bool) -> (r: Self)
        ensures
            r.scan_code == scan_code,
            r.extended == extended,
    {
        PhysicalKey { scan_code, extended }
    }
}

} // verus!
