use vstd::prelude::*;
use crate::value::Value;

verus! {

/// A failure of a storage operation.
#[derive(Debug, PartialEq)]
pub enum Error {
    /// A value could not be converted to or from the host's representation; the reason.
    SerdeWasmBindgen(String),
    /// The host reported a failure; its error value.
    JsValue(Value),
}

} // verus!
