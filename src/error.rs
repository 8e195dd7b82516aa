use vstd::prelude::*;

verus! {

/// Why an operation on a consist or its order form was declined.
#[derive(Clone, Copy, PartialEq, Eq, Debug, Structural)]
pub enum ConsistError {
    /// A position lies outside the current list.
    OutOfRange,
    /// A weight or length typed by the user is not a number in the accepted form.
    InvalidNumericInput,
}

} // verus!
