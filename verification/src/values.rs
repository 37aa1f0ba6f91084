//! Stand-ins for the engine's rootable reference and value types.
//!
//! The engine's object layout is opaque to this layer: a reference is
//! carried as a plain identifier, and a generic value is a tagged scalar.
//! What matters here is only which root-list bucket each type belongs to
//! and how values move through rooted slots.

use vstd::prelude::*;

verus! {

/// A generic engine value: the tagged union stored in value slots.
#[derive(Clone, Copy, Debug, PartialEq, Eq, Structural)]
pub enum Value {
    Undefined,
    Null,
    Boolean(bool),
    Int(i32),
    Object(u64),
    JsString(u64),
    Symbol(u64),
}

impl Default for Value {
    /// A fresh value slot starts out holding the undefined sentinel.
    fn default() -> (v: Value)
        ensures
            v == Value::Undefined,
    {
        Value::Undefined
    }
}

/// A reference to an engine object.
#[derive(Clone, Copy, Debug, PartialEq, Eq, Structural)]
pub struct ObjectRef {
    pub raw: u64,
}

impl ObjectRef {
    /// The null object reference.
    pub open spec fn is_null(self) -> bool {
        self.raw == 0
    }
}

/// A reference to an engine function (a callable object).
#[derive(Clone, Copy, Debug, PartialEq, Eq, Structural)]
pub struct FunctionRef {
    pub raw: u64,
}

/// A reference to an engine string.
#[derive(Clone, Copy, Debug, PartialEq, Eq, Structural)]
pub struct StringRef {
    pub raw: u64,
}

/// A reference to an engine string known to be flat (contiguous storage).
#[derive(Clone, Copy, Debug, PartialEq, Eq, Structural)]
pub struct FlatStringRef {
    pub raw: u64,
}

/// A reference to an engine symbol.
#[derive(Clone, Copy, Debug, PartialEq, Eq, Structural)]
pub struct SymbolRef {
    pub raw: u64,
}

/// A reference to a compiled script.
#[derive(Clone, Copy, Debug, PartialEq, Eq, Structural)]
pub struct ScriptRef {
    pub raw: u64,
}

/// A property key. The zero pattern is the void id.
#[allow(non_camel_case_types)]
#[derive(Clone, Copy, Debug, PartialEq, Eq, Structural)]
pub struct jsid {
    pub bits: u64,
}

impl Default for jsid {
    /// The default id is the void id.
    fn default() -> (id: jsid)
        ensures
            id.bits == 0,
    {
        jsid { bits: 0 }
    }
}

/// A property descriptor: an arbitrary traceable record holding several
/// references at once, rooted as a unit.
#[derive(Clone, Copy, Debug, PartialEq, Eq, Structural)]
pub struct PropertyDescriptor {
    pub obj: ObjectRef,
    pub attrs: u32,
    pub value: Value,
}

/// A native function entry paired with its dispatch information.
#[derive(Clone, Copy, Debug, PartialEq, Eq, Structural)]
pub struct JSNativeWrapper {
    /// Entry point of the native call, if any.
    pub op: Option<u64>,
    /// Dispatch information record, if any.
    pub info: Option<u64>,
}

impl JSNativeWrapper {
    /// True exactly when neither an entry point nor dispatch information is set.
    pub fn is_zeroed(&self) -> (r: bool)
        ensures
            r == (self.op is None && self.info is None),
    {
        self.op.is_none() && self.info.is_none()
    }
}

/// Options chosen when a fresh compartment is created.
#[derive(Clone, Copy, Debug, PartialEq, Eq, Structural)]
pub struct CompartmentOptions {
    pub invisible_to_debugger: bool,
    pub mergeable: bool,
    pub preserve_jit_code: bool,
}

impl Default for CompartmentOptions {
    /// Fresh options leave every flag cleared.
    fn default() -> (o: CompartmentOptions)
        ensures
            !o.invisible_to_debugger,
            !o.mergeable,
            !o.preserve_jit_code,
    {
        CompartmentOptions { invisible_to_debugger: false, mergeable: false, preserve_jit_code: false }
    }
}

} // verus!
