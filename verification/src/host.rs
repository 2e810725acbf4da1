//! The host-value model and option decoding.
//!
//! A host caller hands options over as a generic structured value (an object
//! with optional `filename` and `inline_source_map` fields). `HostValue`
//! models that value as plain data, and `decode_options` turns it into the
//! typed `ProcessOptions` record, or reports exactly why the shape is
//! malformed. Decoding happens before any engine invocation, so a malformed
//! options value never reaches the engine.

use vstd::prelude::*;
use vstd::string::StringExecFns;
use crate::text::str_eq;

verus! {

/// A host-native structured value, as plain data.
pub enum HostValue {
    /// The host's null (a missing field is simply absent from the object).
    Null,
    /// A boolean.
    Bool(bool),
    /// A number; its magnitude never matters to option decoding.
    Number,
    /// A string.
    Text(String),
    /// An ordered list of values.
    List(Vec<HostValue>),
    /// An object: key/value pairs in host order.
    Object(Vec<(String, HostValue)>),
}

/// The decoded configuration record, constructed once per call and passed by
/// value into the engine invocation.
pub struct ProcessOptions {
    /// The logical file name the engine reports positions under, if any.
    pub filename: Option<String>,
    /// Whether the engine should inline a source map into its output.
    pub inline_source_map: bool,
}

/// An optional string as a mathematical value.
pub open spec fn opt_text_view(x: Option<String>) -> Option<Seq<char>> {
    match x {
        Some(s) => Some(s@),
        None => None,
    }
}

impl ProcessOptions {
    /// The filename as a mathematical value.
    pub open spec fn filename_view(&self) -> Option<Seq<char>> {
        opt_text_view(self.filename)
    }
}

/// How many fields named `key` the suffix of `fields` starting at `i` holds.
pub open spec fn count_from(fields: Seq<(String, HostValue)>, key: Seq<char>, i: int) -> nat
    decreases fields.len() - i,
{
    if i < 0 || i >= fields.len() {
        0
    } else {
        (if fields[i].0@ == key {
            1nat
        } else {
            0nat
        }) + count_from(fields, key, i + 1)
    }
}

/// The value of the first field named `key` in the suffix of `fields`
/// starting at `i`, if any.
pub open spec fn first_from(fields: Seq<(String, HostValue)>, key: Seq<char>, i: int) -> Option<
    HostValue,
>
    decreases fields.len() - i,
{
    if i < 0 || i >= fields.len() {
        None
    } else if fields[i].0@ == key {
        Some(fields[i].1)
    } else {
        first_from(fields, key, i + 1)
    }
}

/// How many fields of the object are named `key`.
pub open spec fn field_count(fields: Seq<(String, HostValue)>, key: Seq<char>) -> nat {
    count_from(fields, key, 0)
}

/// The value of the first field named `key`, if any.
pub open spec fn field_first(fields: Seq<(String, HostValue)>, key: Seq<char>) -> Option<
    HostValue,
> {
    first_from(fields, key, 0)
}

/// What the `filename` field decodes to: absent or null is no filename, a
/// string is a filename, anything else is malformed.
pub open spec fn spec_decode_filename(x: Option<HostValue>) -> Result<
    Option<Seq<char>>,
    Seq<char>,
> {
    match x {
        None => Ok(None),
        Some(HostValue::Null) => Ok(None),
        Some(HostValue::Text(s)) => Ok(Some(s@)),
        Some(_) => Err("invalid type for field `filename`: expected a string"@),
    }
}

/// What the `inline_source_map` field decodes to: absent is false, a boolean
/// is itself, anything else is malformed.
pub open spec fn spec_decode_inline(x: Option<HostValue>) -> Result<bool, Seq<char>> {
    match x {
        None => Ok(false),
        Some(HostValue::Bool(b)) => Ok(b),
        Some(_) => Err("invalid type for field `inline_source_map`: expected a boolean"@),
    }
}

/// The full decoding of a host options value: either the (filename,
/// inline_source_map) pair, or the detail text of the decoding error.
pub open spec fn spec_decode(v: HostValue) -> Result<(Option<Seq<char>>, bool), Seq<char>> {
    match v {
        HostValue::Object(fields) => if field_count(fields@, "filename"@) > 1 {
            Err("duplicate field `filename`"@)
        } else if field_count(fields@, "inline_source_map"@) > 1 {
            Err("duplicate field `inline_source_map`"@)
        } else {
            match (
                spec_decode_filename(field_first(fields@, "filename"@)),
                spec_decode_inline(field_first(fields@, "inline_source_map"@)),
            ) {
                (Err(m), _) => Err(m),
                (_, Err(m)) => Err(m),
                (Ok(f), Ok(b)) => Ok((f, b)),
            }
        },
        _ => Err("invalid type: expected an options object"@),
    }
}

/// A suffix holds no more occurrences of `key` than it has fields.
proof fn lemma_count_from_bound(fields: Seq<(String, HostValue)>, key: Seq<char>, i: int)
    requires
        0 <= i <= fields.len(),
    ensures
        count_from(fields, key, i) <= fields.len() - i,
    decreases fields.len() - i,
{
    if i < fields.len() {
        lemma_count_from_bound(fields, key, i + 1);
    }
}

/// Counts the fields named `key` from position `i` on.
fn count_field(fields: &Vec<(String, HostValue)>, key: &str, i: usize) -> (r: usize)
    requires
        i <= fields.len(),
    ensures
        r == count_from(fields@, key@, i as int),
    decreases fields.len() - i,
{
    if i == fields.len() {
        0
    } else {
        proof {
            lemma_count_from_bound(fields@, key@, i + 1);
        }
        let rest = count_field(fields, key, i + 1);
        if str_eq(fields[i].0.as_str(), key) {
            rest + 1
        } else {
            rest
        }
    }
}

/// Finds the first field named `key` from position `i` on.
fn find_field<'a>(fields: &'a Vec<(String, HostValue)>, key: &str, i: usize) -> (r: Option<
    &'a HostValue,
>)
    requires
        i <= fields.len(),
    ensures
        match r {
            Some(v) => first_from(fields@, key@, i as int) == Some(*v),
            None => first_from(fields@, key@, i as int) is None,
        },
    decreases fields.len() - i,
{
    if i == fields.len() {
        None
    } else if str_eq(fields[i].0.as_str(), key) {
        Some(&fields[i].1)
    } else {
        find_field(fields, key, i + 1)
    }
}

/// Decodes a host options value into `ProcessOptions`, or returns the detail
/// text of the decoding error, exactly as `spec_decode` describes.
pub fn decode_options(value: &HostValue) -> (r: Result<ProcessOptions, String>)
    ensures
        (match spec_decode(*value) {
            Ok(d) => r matches Ok(o) && o.filename_view() == d.0 && o.inline_source_map == d.1,
            Err(m) => r matches Err(e) && e@ == m,
        }),
{
    match value {
        HostValue::Object(fields) => {
            let dup_filename = count_field(fields, "filename", 0);
            let dup_inline = count_field(fields, "inline_source_map", 0);
            if dup_filename > 1 {
                return Err(String::from_str("duplicate field `filename`"));
            }
            if dup_inline > 1 {
                return Err(String::from_str("duplicate field `inline_source_map`"));
            }
            let filename: Option<String> = match find_field(fields, "filename", 0) {
                None => None,
                Some(HostValue::Null) => None,
                Some(HostValue::Text(s)) => Some(s.clone()),
                Some(_) => {
                    return Err(
                        String::from_str("invalid type for field `filename`: expected a string"),
                    );
                },
            };
            let inline_source_map: bool = match find_field(fields, "inline_source_map", 0) {
                None => false,
                Some(HostValue::Bool(b)) => *b,
                Some(_) => {
                    return Err(
                        String::from_str(
                            "invalid type for field `inline_source_map`: expected a boolean",
                        ),
                    );
                },
            };
            Ok(ProcessOptions { filename, inline_source_map })
        },
        _ => Err(String::from_str("invalid type: expected an options object")),
    }
}

} // verus!
