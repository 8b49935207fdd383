//! The properties of the system information report: how a value is printed,
//! the query that fetches a class, and the lines of a record.

use vstd::prelude::*;
use vstd::string::*;
use crate::text::{push_char, text_of};

verus! {

/// The value of one property of a management object, as far as the report
/// prints it by its own rules. A value of any other kind comes as the text
/// that stands for it.
#[derive(Debug)]
pub enum PropertyValue {
    Text(String),
    Unsigned(u64),
    Signed(i64),
    Bool(bool),
    Null,
    Other(String),
}

/// The character of a decimal digit.
pub open spec fn digit_of(d: nat) -> char {
    (48 + d) as char
}

/// The decimal numeral of a natural number, without leading zeros.
pub open spec fn decimal_of(n: nat) -> Seq<char>
    decreases n,
{
    if n < 10 {
        seq![digit_of(n)]
    } else {
        decimal_of(n / 10).push(digit_of(n % 10))
    }
}

/// The decimal numeral of an integer, with a minus sign where it is negative.
pub open spec fn signed_decimal_of(n: int) -> Seq<char> {
    if n < 0 {
        seq!['-'] + decimal_of((-n) as nat)
    } else {
        decimal_of(n as nat)
    }
}

/// The text that the report prints for a value.
pub open spec fn rendered(value: PropertyValue) -> Seq<char> {
    match value {
        PropertyValue::Text(s) => s@,
        PropertyValue::Unsigned(n) => decimal_of(n as nat),
        PropertyValue::Signed(n) => signed_decimal_of(n as int),
        PropertyValue::Bool(b) => if b {
            "true"@
        } else {
            "false"@
        },
        PropertyValue::Null => "Null"@,
        PropertyValue::Other(s) => s@,
    }
}

/// The digits of `n`, lowest first.
spec fn digits_reversed(n: nat) -> Seq<char>
    decreases n,
{
    if n < 10 {
        seq![digit_of(n)]
    } else {
        seq![digit_of(n % 10)] + digits_reversed(n / 10)
    }
}

proof fn lemma_digits_reversed(n: nat)
    ensures
        digits_reversed(n).reverse() == decimal_of(n),
    decreases n,
{
    if n >= 10 {
        lemma_digits_reversed(n / 10);
        let low = seq![digit_of(n % 10)];
        let high = digits_reversed(n / 10);
        assert((low + high).reverse() =~= high.reverse().push(digit_of(n % 10)));
    }
}

/// The decimal numeral of a number.
pub fn decimal(n: u64) -> (text: String)
    ensures
        text@ == decimal_of(n as nat),
{
    let mut low_first: Vec<char> = Vec::new();
    let mut rest = n;
    while rest >= 10
        invariant
            low_first@ + digits_reversed(rest as nat) == digits_reversed(n as nat),
        decreases rest,
    {
        let d = (rest % 10) as u8;
        low_first.push((48u8 + d) as char);
        rest = rest / 10;
    }
    low_first.push((48u8 + (rest as u8)) as char);
    let mut digits: Vec<char> = Vec::new();
    let mut k = low_first.len();
    while k > 0
        invariant
            k <= low_first@.len(),
            digits@.len() == low_first@.len() - k,
            forall|i: int| 0 <= i < digits@.len() ==> digits@[i] == low_first@[low_first@.len() - 1 - i],
        decreases k,
    {
        k -= 1;
        digits.push(low_first[k]);
    }
    proof {
        lemma_digits_reversed(n as nat);
    }
    text_of(digits.as_slice())
}

/// The decimal numeral of a signed number.
pub fn signed_decimal(n: i64) -> (text: String)
    ensures
        text@ == signed_decimal_of(n as int),
{
    if n < 0 {
        let magnitude: u64 = ((-(n + 1)) as u64) + 1;
        let digits = decimal(magnitude);
        let mut text = String::new();
        push_char(&mut text, '-');
        text.append(digits.as_str());
        text
    } else {
        decimal(n as u64)
    }
}

/// Prints a value by the report's own rules: a text as it is, a number in
/// decimal, a truth value as `true` or `false`, a missing value as `Null`.
pub fn render_value(value: &PropertyValue) -> (text: String)
    ensures
        text@ == rendered(*value),
{
    match value {
        PropertyValue::Text(s) => s.clone(),
        PropertyValue::Unsigned(n) => decimal(*n),
        PropertyValue::Signed(n) => signed_decimal(*n),
        PropertyValue::Bool(b) => if *b {
            String::from_str("true")
        } else {
            String::from_str("false")
        },
        PropertyValue::Null => String::from_str("Null"),
        PropertyValue::Other(s) => s.clone(),
    }
}

/// The query for all objects of a class, or for those that meet a condition.
pub open spec fn query_of(class_name: Seq<char>, condition: Option<Seq<char>>) -> Seq<char> {
    match condition {
        Some(c) => "SELECT * FROM "@ + class_name + " WHERE "@ + c,
        None => "SELECT * FROM "@ + class_name,
    }
}

/// Builds the query for a class.
pub fn query_text(class_name: &str, condition: Option<&str>) -> (query: String)
    ensures
        query@ == query_of(
            class_name@,
            match condition {
                Some(c) => Some(c@),
                None => None,
            },
        ),
{
    let mut query = String::from_str("SELECT * FROM ");
    query.append(class_name);
    match condition {
        Some(c) => {
            query.append(" WHERE ");
            query.append(c);
        },
        None => {},
    }
    query
}

/// The line of one property: its display name, a colon, and its value.
pub open spec fn property_line(display_name: Seq<char>, value: Seq<char>) -> Seq<char> {
    display_name + ": "@ + value + "\n"@
}

/// Appends the line of one property.
pub fn push_property_line(sb: &mut String, display_name: &str, value: &str)
    ensures
        final(sb)@ == old(sb)@ + property_line(display_name@, value@),
{
    sb.append(display_name);
    sb.append(": ");
    sb.append(value);
    sb.append("\n");
}

/// The line that stands for a class whose query failed.
pub open spec fn query_error_line(class_name: Seq<char>, message: Seq<char>) -> Seq<char> {
    "Error querying "@ + class_name + ": "@ + message + "\n"@
}

/// Appends the line that stands for a class whose query failed.
pub fn push_query_error(sb: &mut String, class_name: &str, message: &str)
    ensures
        final(sb)@ == old(sb)@ + query_error_line(class_name@, message@),
{
    sb.append("Error querying ");
    sb.append(class_name);
    sb.append(": ");
    sb.append(message);
    sb.append("\n");
}

/// The lines of the first `n` properties of a record: one for each property
/// that the record holds a value for.
pub open spec fn record_lines(
    display_names: Seq<Seq<char>>,
    values: Seq<Option<Seq<char>>>,
    n: nat,
) -> Seq<char>
    decreases n,
{
    if n == 0 {
        Seq::empty()
    } else {
        let before = record_lines(display_names, values, (n - 1) as nat);
        if n - 1 < values.len() && values[n - 1] is Some {
            before + property_line(display_names[n - 1], values[n - 1]->0)
        } else {
            before
        }
    }
}

/// The text of one record: the lines of its properties, then a blank line.
pub open spec fn record_of(display_names: Seq<Seq<char>>, values: Seq<Option<Seq<char>>>) -> Seq<
    char,
> {
    record_lines(display_names, values, display_names.len()) + "\n"@
}

/// The views of a vector of strings.
pub open spec fn names_of(names: Seq<String>) -> Seq<Seq<char>> {
    Seq::new(names.len(), |k: int| names[k]@)
}

/// The views of the values of a record.
pub open spec fn values_of(values: Seq<Option<String>>) -> Seq<Option<Seq<char>>> {
    Seq::new(
        values.len(),
        |k: int|
            match values[k] {
                Some(v) => Some(v@),
                None => None,
            },
    )
}

/// Appends one record. `values[k]` is the printed value of the property with
/// the display name `display_names[k]`, or `None` where the record does not
/// hold that property; a property without an entry in `values` counts as not
/// held.
pub fn push_record(sb: &mut String, display_names: &Vec<String>, values: &Vec<Option<String>>)
    ensures
        final(sb)@ == old(sb)@ + record_of(names_of(display_names@), values_of(values@)),
{
    let ghost names = names_of(display_names@);
    let ghost vals = values_of(values@);
    let mut k: usize = 0;
    while k < display_names.len()
        invariant
            k <= display_names@.len(),
            names == names_of(display_names@),
            vals == values_of(values@),
            sb@ == old(sb)@ + record_lines(names, vals, k as nat),
        decreases display_names@.len() - k,
    {
        if k < values.len() {
            match &values[k] {
                Some(v) => {
                    push_property_line(sb, display_names[k].as_str(), v.as_str());
                },
                None => {
                },
            }
        }
        k += 1;
    }
    sb.append("\n");
}

} // verus!
