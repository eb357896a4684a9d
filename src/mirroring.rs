use vstd::prelude::*;

verus! {

/// Name-table layout: the two upper quadrants share storage, as do the two lower ones.
pub const HORIZONTAL: u8 = 1;

/// Name-table layout: the two left quadrants share storage, as do the two right ones.
pub const VERTICAL: u8 = 2;

/// Name-table layout: each quadrant has storage of its own.
pub const FOUR_SCREEN: u8 = 3;

/// Name-table layout: every quadrant maps onto one screen, chosen by a base address.
pub const ONE_SCREEN: u8 = 4;

} // verus!
