//! Self-normalising numbers: a value of the unit range and a value of the
//! signed unit range, each clamped into its range on construction, together
//! with the binary64 rules (order, equality, `max`, `min`, sign) they rest on.
pub mod binary64;
pub mod unit;
