use vstd::prelude::*;

verus! {

/// What a prune operation removed.
#[derive(Debug, Clone, Copy, PartialEq, Eq, Structural)]
pub struct PruneResultDto {
    pub deleted_count: u32,
    pub space_freed: u64,
}

} // verus!
