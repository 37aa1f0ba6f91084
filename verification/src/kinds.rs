//! Root-kind classification tags.
//!
//! Every rootable reference belongs to exactly one of a fixed, small set of
//! root-list buckets. The tag decides which bucket of a root list a rooted
//! node is linked into.

use vstd::prelude::*;

verus! {

/// Number of root-list buckets, one per [`RootKind`] variant.
pub const ROOT_KIND_COUNT: usize = 7;

/// The fixed set of root-list buckets.
#[derive(Clone, Copy, Debug, PartialEq, Eq, Structural)]
pub enum RootKind {
    Object,
    String,
    Script,
    Symbol,
    Id,
    Value,
    Traceable,
}

impl RootKind {
    /// Index of this kind's bucket within a root list.
    pub open spec fn bucket_index(self) -> int {
        match self {
            RootKind::Object => 0,
            RootKind::String => 1,
            RootKind::Script => 2,
            RootKind::Symbol => 3,
            RootKind::Id => 4,
            RootKind::Value => 5,
            RootKind::Traceable => 6,
        }
    }
}

} // verus!
