//! The two failure reports: a generation-time fault for unsupported
//! declaration shapes, and the run-time missing-required-field condition
//! raised by the terminal assembly step.

use vstd::prelude::*;

verus! {

/// A generation-time fault: the declaration's shape is unsupported, and no
/// output is produced for it.
#[derive(Debug)]
pub struct BuilderError {
    pub details: String,
}

impl BuilderError {
    /// Wrap a report message.
    pub fn new(msg: &str) -> (e: BuilderError)
        ensures
            e.details@ == msg@,
    {
        BuilderError { details: msg.to_owned() }
    }

    /// The report message.
    pub fn message(&self) -> (m: String)
        ensures
            m@ == self.details@,
    {
        self.details.clone()
    }
}

/// A missing-required-field failure raised by the terminal assembly step; it
/// names exactly the field whose slot was never filled, so that a caller can
/// supply the value and retry.
#[derive(Debug)]
pub struct MissingFieldError {
    pub field_name: String,
}

/// The suffix the missing-field report appends to the field's name.
pub open spec fn unset_suffix() -> Seq<char> {
    " is unset!"@
}

impl MissingFieldError {
    /// The report message: the missing field's name and the fixed suffix.
    pub fn message(&self) -> (m: String)
        ensures
            m@ == self.field_name@ + unset_suffix(),
    {
        let mut m = self.field_name.clone();
        m.append(" is unset!");
        m
    }
}

} // verus!
