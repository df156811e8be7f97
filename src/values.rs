use vstd::prelude::*;
use vstd::string::*;

use crate::text::{
    chars_of, contains_exec, decimal_of, ends_with_exec, u64_to_decimal, has_prefix, has_substring, has_suffix,
    i64_to_decimal, signed_decimal_of, starts_with_exec,
};

verus! {

/// A typed value resolved from a policy, or collected from the host.
#[derive(Debug, Clone)]
pub enum ResolvedValue {
    String(String),
    Integer(i64),
    Boolean(bool),
    Version(String),
    EvrString(String),
}

/// Comparison operator of a state field.
#[derive(Debug, Clone, Copy, PartialEq, Eq, Structural)]
pub enum Operation {
    Equals,
    NotEqual,
    GreaterThan,
    LessThan,
    GreaterThanOrEqual,
    LessThanOrEqual,
    Contains,
    NotContains,
    StartsWith,
    EndsWith,
}

/// Clones a value, keeping it equal to the value cloned.
pub fn clone_value(v: &ResolvedValue) -> (r: ResolvedValue)
    ensures
        r == *v,
{
    match v {
        ResolvedValue::String(s) => ResolvedValue::String(s.clone()),
        ResolvedValue::Integer(i) => ResolvedValue::Integer(*i),
        ResolvedValue::Boolean(b) => ResolvedValue::Boolean(*b),
        ResolvedValue::Version(s) => ResolvedValue::Version(s.clone()),
        ResolvedValue::EvrString(s) => ResolvedValue::EvrString(s.clone()),
    }
}

/// String comparison of an actual value against an expected one.
pub open spec fn compare_str_spec(expected: Seq<char>, actual: Seq<char>, op: Operation) -> bool {
    match op {
        Operation::Equals => actual == expected,
        Operation::NotEqual => actual != expected,
        Operation::Contains => has_substring(actual, expected),
        Operation::NotContains => !has_substring(actual, expected),
        Operation::StartsWith => has_prefix(actual, expected),
        Operation::EndsWith => has_suffix(actual, expected),
        _ => false,
    }
}

/// Signed-integer comparison: the actual value stands on the left of the operator.
pub open spec fn compare_int_spec(expected: int, actual: int, op: Operation) -> bool {
    match op {
        Operation::Equals => actual == expected,
        Operation::NotEqual => actual != expected,
        Operation::GreaterThan => actual > expected,
        Operation::LessThan => actual < expected,
        Operation::GreaterThanOrEqual => actual >= expected,
        Operation::LessThanOrEqual => actual <= expected,
        _ => false,
    }
}

/// Equality-only comparison.
pub open spec fn compare_eq_spec<T>(expected: T, actual: T, op: Operation) -> bool {
    match op {
        Operation::Equals => actual == expected,
        Operation::NotEqual => actual != expected,
        _ => false,
    }
}

/// Type-strict comparison: values of different variants never compare true.
pub open spec fn compare_spec(expected: ResolvedValue, actual: ResolvedValue, op: Operation) -> bool {
    match (expected, actual) {
        (ResolvedValue::String(e), ResolvedValue::String(a)) => compare_str_spec(e@, a@, op),
        (ResolvedValue::Integer(e), ResolvedValue::Integer(a)) => compare_int_spec(
            e as int,
            a as int,
            op,
        ),
        (ResolvedValue::Boolean(e), ResolvedValue::Boolean(a)) => compare_eq_spec(e, a, op),
        (ResolvedValue::Version(e), ResolvedValue::Version(a)) => compare_eq_spec(e@, a@, op),
        (ResolvedValue::EvrString(e), ResolvedValue::EvrString(a)) => compare_eq_spec(
            e@,
            a@,
            op,
        ),
        _ => false,
    }
}

fn eq_result(equal: bool, op: Operation) -> (r: bool)
    ensures
        r == match op {
            Operation::Equals => equal,
            Operation::NotEqual => !equal,
            _ => false,
        },
{
    match op {
        Operation::Equals => equal,
        Operation::NotEqual => !equal,
        _ => false,
    }
}

/// Compares an actual string against an expected one under a string operator.
pub fn compare_string_operation(expected: &str, actual: &str, op: Operation) -> (r: bool)
    ensures
        r == compare_str_spec(expected@, actual@, op),
{
    let e = chars_of(expected);
    let a = chars_of(actual);
    let same = a.len() == e.len() && starts_with_exec(&a, &e);
    proof {
        assert(a@.subrange(0, a@.len() as int) =~= a@);
    }
    assert(same == (a@ == e@));
    match op {
        Operation::Equals => same,
        Operation::NotEqual => !same,
        Operation::Contains => contains_exec(&a, &e),
        Operation::NotContains => !contains_exec(&a, &e),
        Operation::StartsWith => starts_with_exec(&a, &e),
        Operation::EndsWith => ends_with_exec(&a, &e),
        _ => false,
    }
}

/// Signed-integer comparison of an actual value against an expected one.
pub fn compare_integers(expected: i64, actual: i64, op: Operation) -> (r: bool)
    ensures
        r == compare_int_spec(expected as int, actual as int, op),
{
    match op {
        Operation::Equals => actual == expected,
        Operation::NotEqual => actual != expected,
        Operation::GreaterThan => actual > expected,
        Operation::LessThan => actual < expected,
        Operation::GreaterThanOrEqual => actual >= expected,
        Operation::LessThanOrEqual => actual <= expected,
        _ => false,
    }
}

/// Compares an actual value against an expected one. Mismatched types compare false.
pub fn compare_values(expected: &ResolvedValue, actual: &ResolvedValue, op: Operation) -> (r: bool)
    ensures
        r == compare_spec(*expected, *actual, op),
{
    match (expected, actual) {
        (ResolvedValue::String(e), ResolvedValue::String(a)) => compare_string_operation(
            e.as_str(),
            a.as_str(),
            op,
        ),
        (ResolvedValue::Integer(e), ResolvedValue::Integer(a)) => compare_integers(*e, *a, op),
        (ResolvedValue::Boolean(e), ResolvedValue::Boolean(a)) => eq_result(*e == *a, op),
        (ResolvedValue::Version(e), ResolvedValue::Version(a)) => eq_result(
            compare_string_operation(e.as_str(), a.as_str(), Operation::Equals),
            op,
        ),
        (ResolvedValue::EvrString(e), ResolvedValue::EvrString(a)) => eq_result(
            compare_string_operation(e.as_str(), a.as_str(), Operation::Equals),
            op,
        ),
        _ => false,
    }
}

/// A string expected value never matches an integer actual value, whatever the operator.
pub proof fn lemma_type_mismatch_fails(e: String, a: i64, op: Operation)
    ensures
        !compare_spec(ResolvedValue::String(e), ResolvedValue::Integer(a), op),
        !compare_spec(ResolvedValue::Integer(a), ResolvedValue::String(e), op),
{
}

/// Name of an operator, as shown in messages.
pub open spec fn op_name_spec(op: Operation) -> Seq<char> {
    match op {
        Operation::Equals => "Equals"@,
        Operation::NotEqual => "NotEqual"@,
        Operation::GreaterThan => "GreaterThan"@,
        Operation::LessThan => "LessThan"@,
        Operation::GreaterThanOrEqual => "GreaterThanOrEqual"@,
        Operation::LessThanOrEqual => "LessThanOrEqual"@,
        Operation::Contains => "Contains"@,
        Operation::NotContains => "NotContains"@,
        Operation::StartsWith => "StartsWith"@,
        Operation::EndsWith => "EndsWith"@,
    }
}

pub fn op_name(op: Operation) -> (r: String)
    ensures
        r@ == op_name_spec(op),
{
    match op {
        Operation::Equals => String::from_str("Equals"),
        Operation::NotEqual => String::from_str("NotEqual"),
        Operation::GreaterThan => String::from_str("GreaterThan"),
        Operation::LessThan => String::from_str("LessThan"),
        Operation::GreaterThanOrEqual => String::from_str("GreaterThanOrEqual"),
        Operation::LessThanOrEqual => String::from_str("LessThanOrEqual"),
        Operation::Contains => String::from_str("Contains"),
        Operation::NotContains => String::from_str("NotContains"),
        Operation::StartsWith => String::from_str("StartsWith"),
        Operation::EndsWith => String::from_str("EndsWith"),
    }
}

/// How a value is shown in messages.
pub open spec fn format_value_spec(v: ResolvedValue) -> Seq<char> {
    match v {
        ResolvedValue::String(s) => "'"@ + s@ + "'"@,
        ResolvedValue::Integer(i) => signed_decimal_of(i as int),
        ResolvedValue::Boolean(b) => if b {
            "true"@
        } else {
            "false"@
        },
        ResolvedValue::Version(s) => s@,
        ResolvedValue::EvrString(s) => s@,
    }
}

pub fn format_value(v: &ResolvedValue) -> (r: String)
    ensures
        r@ == format_value_spec(*v),
{
    match v {
        ResolvedValue::String(s) => {
            let mut r = String::from_str("'");
            r.append(s.as_str());
            r.append("'");
            r
        },
        ResolvedValue::Integer(i) => i64_to_decimal(*i),
        ResolvedValue::Boolean(b) => if *b {
            String::from_str("true")
        } else {
            String::from_str("false")
        },
        ResolvedValue::Version(s) => s.clone(),
        ResolvedValue::EvrString(s) => s.clone(),
    }
}

/// A preview of a text for messages: the text itself when it has at most `max_len`
/// characters, else its first `max_len` characters and its total length.
pub open spec fn preview_spec(content: Seq<char>, max_len: nat) -> Seq<char> {
    if content.len() <= max_len {
        content
    } else {
        content.subrange(0, max_len as int) + "... ("@ + decimal_of(content.len()) + " chars total)"@
    }
}

pub fn preview_content(content: &str, max_len: usize) -> (r: String)
    ensures
        r@ == preview_spec(content@, max_len as nat),
{
    let n = content.unicode_len();
    if n <= max_len {
        return String::from_str(content);
    }
    let mut r = String::from_str(content.substring_char(0, max_len));
    r.append("... (");
    r.append(u64_to_decimal(n as u64).as_str());
    r.append(" chars total)");
    r
}

} // verus!
