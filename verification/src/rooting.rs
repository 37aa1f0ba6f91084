//! Rooting classification for the standard rootable types.
//!
//! The classifier is a pure, total mapping from a rootable type to the
//! [`crate::kinds::RootKind`] bucket its roots are linked into. Every
//! rootable type has exactly one classification, fixed at compile time.

use vstd::prelude::*;

use crate::kinds;
use crate::values::FlatStringRef;
use crate::values::FunctionRef;
use crate::values::ObjectRef;
use crate::values::PropertyDescriptor;
use crate::values::ScriptRef;
use crate::values::StringRef;
use crate::values::SymbolRef;
use crate::values::Value;
use crate::values::jsid;

verus! {

/// A type whose values can be registered on a root list.
///
/// `rootKind` decides the bucket; it is constant for the type.
pub trait RootKind {
    /// The bucket this type's roots belong to.
    spec fn spec_root_kind() -> kinds::RootKind;

    /// Returns the bucket this type's roots belong to.
    #[allow(non_snake_case)]
    fn rootKind() -> (k: kinds::RootKind)
        ensures
            k == Self::spec_root_kind(),
    ;
}

impl RootKind for ObjectRef {
    open spec fn spec_root_kind() -> kinds::RootKind {
        kinds::RootKind::Object
    }

    #[allow(non_snake_case)]
    fn rootKind() -> (k: kinds::RootKind) {
        kinds::RootKind::Object
    }
}

impl RootKind for FlatStringRef {
    open spec fn spec_root_kind() -> kinds::RootKind {
        kinds::RootKind::String
    }

    #[allow(non_snake_case)]
    fn rootKind() -> (k: kinds::RootKind) {
        kinds::RootKind::String
    }
}

impl RootKind for FunctionRef {
    open spec fn spec_root_kind() -> kinds::RootKind {
        kinds::RootKind::Object
    }

    #[allow(non_snake_case)]
    fn rootKind() -> (k: kinds::RootKind) {
        kinds::RootKind::Object
    }
}

impl RootKind for StringRef {
    open spec fn spec_root_kind() -> kinds::RootKind {
        kinds::RootKind::String
    }

    #[allow(non_snake_case)]
    fn rootKind() -> (k: kinds::RootKind) {
        kinds::RootKind::String
    }
}

impl RootKind for SymbolRef {
    open spec fn spec_root_kind() -> kinds::RootKind {
        kinds::RootKind::Symbol
    }

    #[allow(non_snake_case)]
    fn rootKind() -> (k: kinds::RootKind) {
        kinds::RootKind::Symbol
    }
}

impl RootKind for ScriptRef {
    open spec fn spec_root_kind() -> kinds::RootKind {
        kinds::RootKind::Script
    }

    #[allow(non_snake_case)]
    fn rootKind() -> (k: kinds::RootKind) {
        kinds::RootKind::Script
    }
}

impl RootKind for jsid {
    open spec fn spec_root_kind() -> kinds::RootKind {
        kinds::RootKind::Id
    }

    #[allow(non_snake_case)]
    fn rootKind() -> (k: kinds::RootKind) {
        kinds::RootKind::Id
    }
}

impl RootKind for Value {
    open spec fn spec_root_kind() -> kinds::RootKind {
        kinds::RootKind::Value
    }

    #[allow(non_snake_case)]
    fn rootKind() -> (k: kinds::RootKind) {
        kinds::RootKind::Value
    }
}

impl RootKind for PropertyDescriptor {
    open spec fn spec_root_kind() -> kinds::RootKind {
        kinds::RootKind::Traceable
    }

    #[allow(non_snake_case)]
    fn rootKind() -> (k: kinds::RootKind) {
        kinds::RootKind::Traceable
    }
}

} // verus!
