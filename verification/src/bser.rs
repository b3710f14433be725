//! Clock specifiers as values of the `serde_bser` crate, for callers that
//! put one into a value of their own making.

use crate::clock::ClockSpec;
use crate::clock::ClockSpecView;
use serde_bser::value::Value;
use vstd::prelude::*;
use vstd::std_specs::convert::FromSpecImpl;

verus! {

/// The dynamically typed value of `serde_bser`. Nothing in it is visible
/// here: a value is made and handed on.
#[verifier::external_type_specification]
#[verifier::external_body]
pub struct ExValue(serde_bser::value::Value);

/// The value that `serde_bser` makes of a string.
pub uninterp spec fn value_of_text(text: Seq<char>) -> serde_bser::value::Value;

/// The value that `serde_bser` makes of an integer.
pub uninterp spec fn value_of_integer(n: i64) -> serde_bser::value::Value;

/// `Value::from` of `serde_bser` for a `String`, which wraps the string in
/// the variant for UTF-8 strings. The result is named, not described.
#[verifier::external_body]
fn value_from_string(text: String) -> (v: Value)
    ensures
        v == value_of_text(text@),
{
    Value::from(text)
}

/// `Value::from` of `serde_bser` for an `i64`, which wraps the number in the
/// variant for integers. The result is named, not described.
#[verifier::external_body]
fn value_from_integer(n: i64) -> (v: Value)
    ensures
        v == value_of_integer(n),
{
    Value::from(n)
}

/// The value that stands for a clock specifier: that of its string, or that
/// of its time.
pub open spec fn value_of_clock_spec(c: ClockSpecView) -> serde_bser::value::Value {
    match c {
        ClockSpecView::StringClock(s) => value_of_text(s),
        ClockSpecView::UnixTimestamp(t) => value_of_integer(t),
    }
}

impl From<ClockSpec> for Value {
    fn from(val: ClockSpec) -> (v: Value)
        ensures
            v == value_of_clock_spec(val.deep_view()),
    {
        match val {
            ClockSpec::StringClock(s) => value_from_string(s),
            ClockSpec::UnixTimestamp(t) => value_from_integer(t),
        }
    }
}

impl FromSpecImpl<ClockSpec> for Value {
    open spec fn obeys_from_spec() -> bool {
        true
    }

    open spec fn from_spec(val: ClockSpec) -> Value {
        value_of_clock_spec(val.deep_view())
    }
}

} // verus!
