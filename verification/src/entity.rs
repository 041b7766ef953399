//! Handles into the host engine's tables.
//!
//! The engine allocates entities and alarms; the rules only compare the
//! handles and store them, so each is an opaque number.

use vstd::prelude::*;

verus! {

/// Identifies one entity of the host engine.
#[derive(Debug, Clone, Copy, PartialOrd, Ord, PartialEq, Eq, Hash, Structural)]
pub struct Entity(pub u64);

/// Identifies one scheduled alarm of the host engine.
#[derive(Debug, Clone, Copy, PartialOrd, Ord, PartialEq, Eq, Hash, Structural)]
pub struct AlarmId(pub u64);

} // verus!
