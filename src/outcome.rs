//! Decoding of the record that the engine returns from a call.
use vstd::prelude::*;
use crate::value::Value;

verus! {

/// The record the engine fills in after a call, as it comes.
#[derive(Clone, Copy, Debug, PartialEq, Eq, Structural)]
pub struct ExecutionRecord {
    pub trapped: bool,
    pub has_value: bool,
    pub value: Value,
}

/// How a call ended.
#[derive(Clone, Copy, Debug, PartialEq, Eq, Structural)]
pub enum Outcome {
    /// A runtime fault stopped the call; there is no value.
    Trap,
    /// The call returned normally, with a value or without one.
    Return(Option<Value>),
}

/// The outcome that a record stands for: a trap hides whatever value the
/// record carries, and a value is present only where the record says so.
pub open spec fn decode(rec: ExecutionRecord) -> Outcome {
    if rec.trapped {
        Outcome::Trap
    } else if rec.has_value {
        Outcome::Return(Some(rec.value))
    } else {
        Outcome::Return(None)
    }
}

/// The result of a call on an instance.
pub struct ExecutionResult {
    record: ExecutionRecord,
}

impl View for ExecutionResult {
    type V = ExecutionRecord;

    closed spec fn view(&self) -> ExecutionRecord {
        self.record
    }
}

impl ExecutionResult {
    /// Wraps a record from the engine; the accessors below decode it.
    pub fn from_record(record: ExecutionRecord) -> (r: ExecutionResult)
        ensures
            r@ == record,
    {
        ExecutionResult { record }
    }

    /// The record the result was made from.
    pub fn into_record(self) -> (r: ExecutionRecord)
        ensures
            r == self@,
    {
        self.record
    }

    /// Whether the call stopped on a runtime fault.
    pub fn trapped(&self) -> (r: bool)
        ensures
            r == (decode(self@) == Outcome::Trap),
            r == self@.trapped,
    {
        self.record.trapped
    }

    /// The value the call returned: none after a trap, nor where the function
    /// returns nothing.
    pub fn value(&self) -> (r: Option<Value>)
        ensures
            r == (match decode(self@) {
                Outcome::Trap => None,
                Outcome::Return(v) => v,
            }),
            r is Some <==> (!self@.trapped && self@.has_value),
            r is Some ==> r->0 == self@.value,
    {
        if !self.record.trapped && self.record.has_value {
            return Some(self.record.value);
        }
        None
    }

    /// The outcome of the call.
    pub fn outcome(&self) -> (r: Outcome)
        ensures
            r == decode(self@),
    {
        if self.record.trapped {
            Outcome::Trap
        } else {
            Outcome::Return(self.value())
        }
    }
}

impl From<ExecutionRecord> for ExecutionResult {
    fn from(record: ExecutionRecord) -> (r: ExecutionResult) {
        ExecutionResult::from_record(record)
    }
}

impl vstd::std_specs::convert::FromSpecImpl<ExecutionRecord> for ExecutionResult {
    open spec fn obeys_from_spec() -> bool {
        true
    }

    closed spec fn from_spec(record: ExecutionRecord) -> ExecutionResult {
        ExecutionResult { record }
    }
}

impl From<ExecutionResult> for ExecutionRecord {
    fn from(result: ExecutionResult) -> (r: ExecutionRecord) {
        result.into_record()
    }
}

impl vstd::std_specs::convert::FromSpecImpl<ExecutionResult> for ExecutionRecord {
    open spec fn obeys_from_spec() -> bool {
        true
    }

    open spec fn from_spec(result: ExecutionResult) -> ExecutionRecord {
        result@
    }
}

} // verus!
