//! The error returned when a pool is asked for with no workers.

use vstd::prelude::*;
use crate::decimal::{decimal, to_decimal};

verus! {

/// A pool was asked for with a thread count that is not positive.
#[derive(Debug, Clone)]
pub struct ThreadCountError {
    caller: &'static str,
    invalid_val: usize,
}

/// The message for a count `invalid_val` that the operation `caller` refused.
pub open spec fn invalid_count_text(caller: Seq<char>, invalid_val: nat) -> Seq<char> {
    caller + ": Invalid thread count: "@ + decimal(invalid_val)
        + ". Thread count must be a positive number."@
}

impl ThreadCountError {
    /// The name of the operation that refused the count.
    pub closed spec fn spec_caller(&self) -> &'static str {
        self.caller
    }

    /// The count that was refused.
    pub closed spec fn spec_invalid_val(&self) -> usize {
        self.invalid_val
    }

    /// The error of the operation `caller` for the count `invalid_val`.
    pub(crate) fn new(caller: &'static str, invalid_val: usize) -> (error: ThreadCountError)
        ensures
            error.caller() == caller,
            error.invalid_val() == invalid_val,
    {
        ThreadCountError { caller, invalid_val }
    }

    /// The name of the operation that refused the count.
    #[verifier::when_used_as_spec(spec_caller)]
    pub fn caller(&self) -> (name: &'static str)
        ensures
            name == self.caller(),
    {
        self.caller
    }

    /// The count that was refused.
    #[verifier::when_used_as_spec(spec_invalid_val)]
    pub fn invalid_val(&self) -> (count: usize)
        ensures
            count == self.invalid_val(),
    {
        self.invalid_val
    }

    /// The message of the error: who refused which count, and why.
    pub fn to_string(&self) -> (text: String)
        ensures
            text@ == invalid_count_text(self.caller()@, self.invalid_val() as nat),
    {
        let mut text = String::from_str(self.caller);
        text.append(": Invalid thread count: ");
        let digits = to_decimal(self.invalid_val);
        text.append(digits.as_str());
        text.append(". Thread count must be a positive number.");
        text
    }
}

} // verus!
