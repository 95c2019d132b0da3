//! Helpers shared by the vendor clients: bounded text fields, change
//! detection, and typed reads from XML and JSON documents.

use vstd::prelude::*;
use vstd::std_specs::cmp::PartialEqSpec;
use crate::json::JsonValue;
use crate::xml::XmlElement;
use crate::text::{ends_with, parse_i64, parse_i64_text, prefix, str_ends_with, take_chars};

verus! {

/// What a text field of `capacity` characters keeps of `s`: one place
/// stays free, as in a buffer with a terminator, so at most
/// `capacity - 1` characters, counted from the start.
pub open spec fn bounded_text(s: Seq<char>, capacity: nat) -> Seq<char> {
    prefix(s, (capacity - 1) as nat)
}

/// Cuts `s` down to what a field of `capacity` characters holds.
pub fn copy_string_to_array(s: &str, capacity: usize) -> (r: String)
    requires
        capacity >= 1,
    ensures
        r@ == bounded_text(s@, capacity as nat),
        r@.len() < capacity,
{
    take_chars(s, capacity - 1)
}

/// Remembers the last value it was shown and tells when a new one differs.
pub struct ValueChangeObserver<T: PartialEq + Copy> {
    val: Option<T>,
}

impl<T: PartialEq + Copy> ValueChangeObserver<T> {
    /// The value remembered, `None` before the first one.
    pub closed spec fn value(&self) -> Option<T> {
        self.val
    }

    pub fn new() -> (r: Self)
        ensures
            r.value() is None,
    {
        ValueChangeObserver { val: None }
    }

    /// Whether `new_val` differs from the value remembered; the first
    /// value always does. A value that differs is remembered in its turn.
    pub fn update_and_check_if_changed(&mut self, new_val: T) -> (status: bool)
        ensures
            old(self).value() is None ==> status,
            T::obeys_eq_spec() ==> status == match old(self).value() {
                Some(v) => !v.eq_spec(&new_val),
                None => true,
            },
            final(self).value() == if status {
                Some(new_val)
            } else {
                old(self).value()
            },
    {
        let status = match self.val {
            Some(v) => v != new_val,
            None => true,
        };
        if status {
            self.val = Some(new_val);
        }
        status
    }
}

/// The integer that a JSON string writes in decimal.
pub open spec fn json_str_int(val: JsonValue) -> Option<i64> {
    match val.str_value() {
        Some(s) => parse_i64_text(s),
        None => None,
    }
}

/// Reads an integer that a JSON document holds as a string.
pub fn json_str_as_type(val: &JsonValue) -> (r: Option<i64>)
    ensures
        r == json_str_int(*val),
{
    match val.as_str() {
        Some(s) => parse_i64(s),
        None => None,
    }
}

/// `s` without the unit at its end: `dB` is looked for first, then `dBm`,
/// and one unit at most is taken off.
pub open spec fn without_unit(s: Seq<char>) -> Seq<char> {
    if ends_with(s, "dB"@) {
        s.take(s.len() - 2)
    } else if ends_with(s, "dBm"@) {
        s.take(s.len() - 3)
    } else {
        s
    }
}

/// Takes the unit off the end of `s`.
pub fn truncate_unit(s: &mut String)
    ensures
        final(s)@ == without_unit(old(s)@),
{
    proof {
        reveal_strlit("dB");
        reveal_strlit("dBm");
    }
    let n: usize = s.as_str().unicode_len();
    if str_ends_with(s.as_str(), "dB") {
        *s = take_chars(s.as_str(), n - 2);
    } else if str_ends_with(s.as_str(), "dBm") {
        *s = take_chars(s.as_str(), n - 3);
    }
}

/// The integer that the text of the child called `name` writes.
pub open spec fn int_field(xml: XmlElement, name: Seq<char>) -> Option<i64> {
    match xml.field(name) {
        Some(s) => parse_i64_text(s),
        None => None,
    }
}

/// The integer that the text of the child called `name` writes before its
/// unit, if it has one.
pub open spec fn unit_field(xml: XmlElement, name: Seq<char>) -> Option<i64> {
    match xml.field(name) {
        Some(s) => parse_i64_text(without_unit(s)),
        None => None,
    }
}

/// The text of the child element called `name`.
pub fn get_xml_element(xml: &XmlElement, name: &str) -> (r: Option<String>)
    ensures
        match r {
            Some(s) => xml.field(name@) == Some(s@),
            None => xml.field(name@) is None,
        },
{
    match xml.get_child(name) {
        Some(element) => element.get_text(),
        None => None,
    }
}

/// The text of the child element called `name`, read as an integer;
/// `None` where the child, its text or the integer is missing.
pub fn get_xml_element_as(xml: &XmlElement, name: &str) -> (r: Option<i64>)
    ensures
        r == int_field(*xml, name@),
{
    match get_xml_element(xml, name) {
        Some(text) => parse_i64(text.as_str()),
        None => None,
    }
}

/// As `get_xml_element_as`, after a unit at the end of the text is taken
/// off.
pub fn get_xml_element_as_unit(xml: &XmlElement, name: &str) -> (r: Option<i64>)
    ensures
        r == unit_field(*xml, name@),
{
    match get_xml_element(xml, name) {
        Some(text) => {
            let mut text = text;
            truncate_unit(&mut text);
            parse_i64(text.as_str())
        },
        None => None,
    }
}

/// Whether every name in `parameters` is that of a child with text.
pub fn xml_contains_required_parameters(xml: &XmlElement, parameters: &[&str]) -> (r: bool)
    ensures
        r == (forall|i: int|
            0 <= i < parameters@.len() ==> xml.field((#[trigger] parameters@[i])@) is Some),
{
    let mut i: usize = 0;
    while i < parameters.len()
        invariant
            i <= parameters@.len(),
            forall|k: int| 0 <= k < i ==> xml.field((#[trigger] parameters@[k])@) is Some,
        decreases parameters@.len() - i,
    {
        if get_xml_element(xml, parameters[i]).is_none() {
            return false;
        }
        i = i + 1;
    }
    true
}

} // verus!
