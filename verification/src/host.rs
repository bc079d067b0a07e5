//! A model of the host engine surface this crate talks to.
//!
//! The real host engine hands out raw pointers and opaque handles; here each
//! of those is modeled by a plain value that carries exactly what the
//! lifecycle logic reads of it. An isolate is an address-sized token, and a
//! host value is its runtime tag together with the payload the marshaling
//! layer would copy.

use vstd::prelude::*;

use crate::descriptor::ResourceDescriptor;

verus! {

/// The callable class shape the host's template builder produces from a
/// resource descriptor. The host-side object is opaque; what this core
/// knows of a template is the descriptor it was built from, so that is what
/// the model carries.
#[derive(Clone, Debug)]
pub struct FunctionTemplate {
    pub descriptor: ResourceDescriptor,
}

/// An address-sized token standing for the host engine instance a caller
/// holds the execution lock of.
#[derive(Clone, Copy, Debug, PartialEq, Eq, Structural)]
pub struct IsolatePtr {
    pub addr: usize,
}

/// A host-runtime value, modeled by its runtime type tag and, where the
/// marshaling layer copies one, its payload. Numbers keep only their tag:
/// their payload belongs to the marshaling collaborator, not to this core.
pub enum Value {
    Undefined,
    Null,
    Boolean(bool),
    Number,
    Str(String),
    Object,
}

/// The name the host runtime reports for a value's runtime type.
pub open spec fn type_of_spec(v: Value) -> Seq<char> {
    match v {
        Value::Undefined => "undefined"@,
        Value::Null => "object"@,
        Value::Boolean(_) => "boolean"@,
        Value::Number => "number"@,
        Value::Str(_) => "string"@,
        Value::Object => "object"@,
    }
}

impl Value {
    /// Reports this value's runtime type name, the way the host runtime
    /// would (a null value reports as an object).
    pub fn type_of(&self) -> (r: &'static str)
        ensures
            r@ == type_of_spec(*self),
    {
        match self {
            Value::Undefined => "undefined",
            Value::Null => "object",
            Value::Boolean(_) => "boolean",
            Value::Number => "number",
            Value::Str(_) => "string",
            Value::Object => "object",
        }
    }

    pub fn is_string(&self) -> (r: bool)
        ensures
            r == (*self is Str),
    {
        match self {
            Value::Str(_) => true,
            _ => false,
        }
    }

    pub fn is_boolean(&self) -> (r: bool)
        ensures
            r == (*self is Boolean),
    {
        match self {
            Value::Boolean(_) => true,
            _ => false,
        }
    }
}

/// The arguments record a host callback receives: the isolate it runs in
/// and the slot for the value it returns to the host.
pub struct FunctionCallbackInfo {
    pub isolate: IsolatePtr,
    pub return_value: Option<Value>,
}

impl FunctionCallbackInfo {
    pub fn set_return_value(&mut self, value: Value)
        ensures
            final(self).isolate == old(self).isolate,
            final(self).return_value == Some(value),
    {
        self.return_value = Some(value);
    }
}

} // verus!
