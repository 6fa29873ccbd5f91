use vstd::prelude::*;

verus! {

/// Why an operation on a UUID gave no value.
#[derive(Clone, Copy, Debug, PartialEq, Eq, Structural)]
pub enum UuidError {
    /// The text is not a UUID in any accepted form.
    InvalidFormat,
    /// The UUID is well formed, but its version and variant define no timestamp.
    NoTimestamp,
    /// The UUID is well formed, but its version and variant define no node.
    NoNode,
    /// The embedded timestamp lies outside what the calendar can represent.
    InvalidTimestamp,
}

} // verus!
