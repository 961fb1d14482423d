//! Drift records: what the change detector reports about one path. A record
//! lives for a single diff-and-apply cycle and is never persisted.

use vstd::prelude::*;

verus! {

/// How a live path differs from the tracked manifest.
#[derive(Debug, Clone, Copy, PartialEq, Eq, Structural)]
pub enum Type {
    Update,
    New,
    Missing,
}

/// One classified difference: the kind of change and the path it concerns.
#[derive(Debug, Clone)]
pub struct SaveUpdate {
    pub change: Type,
    pub path: String,
}

} // verus!
