use vstd::prelude::*;

verus! {

/// The level that a pin is driven to or read at.
#[derive(Clone, Copy, Debug, PartialEq, Eq, Structural)]
pub enum Level {
    Low,
    High,
}

/// The other level.
pub open spec fn toggled(l: Level) -> Level {
    match l {
        Level::Low => Level::High,
        Level::High => Level::Low,
    }
}

} // verus!
