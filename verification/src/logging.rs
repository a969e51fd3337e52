//! Logging of the messages that the actors handle: every message is logged as
//! its payload, in the pretty `Debug` layout, before it is handled.
use vstd::prelude::*;
use crate::text::{decimal, decimal_string};

verus! {

/// What can be logged.
pub trait Loggable {
    /// The text the value is logged as.
    spec fn log_text(&self) -> Seq<char>;

    fn to_log(&self) -> (r: String)
        ensures
            r@ == self.log_text();
}

/// The value, passed on unchanged, with the line to log for it.
pub fn logged<P: Loggable>(value: P) -> (r: (P, String))
    ensures
        r.0 == value,
        r.1@ == value.log_text(),
{
    let line = value.to_log();
    (value, line)
}

/// What `format!("{:?}", s)` writes for a string: the string in double
/// quotes, with the characters that need it escaped.
pub uninterp spec fn debug_quoted(s: Seq<char>) -> Seq<char>;

/// Calls `format!` with the `Debug` format of `str`; its result is named
/// `debug_quoted`, and nothing else is stated of it here.
#[verifier::external_body]
pub fn debug_str(s: &str) -> (r: String)
    ensures
        r@ == debug_quoted(s@),
{
    format!("{:?}", s)
}

/// An integer as `Debug` writes it: its decimal digits, after `-` when negative.
pub open spec fn debug_int(n: int) -> Seq<char> {
    if n < 0 {
        seq!['-'] + decimal((-n) as nat)
    } else {
        decimal(n as nat)
    }
}

pub fn debug_i64(n: i64) -> (r: String)
    ensures
        r@ == debug_int(n as int),
{
    if n < 0 {
        proof {
            reveal_strlit("-");
        }
        let magnitude: u64 = if n == i64::MIN {
            9223372036854775808u64
        } else {
            (-n) as u64
        };
        let digits = decimal_string(magnitude);
        let mut r = "-".to_owned();
        r.append(digits.as_str());
        r
    } else {
        decimal_string(n as u64)
    }
}

/// The pretty layout of an optional string: `None`, or the quoted string in
/// `Some( ... )` over three lines, indented as a field's value.
pub open spec fn debug_opt_text(o: Option<Seq<char>>) -> Seq<char> {
    match o {
        None => "None"@,
        Some(s) => "Some(\n        "@ + debug_quoted(s) + ",\n    )"@,
    }
}

pub fn debug_opt_str(o: &Option<String>) -> (r: String)
    ensures
        r@ == debug_opt_text(crate::entities::opt_view(*o)),
{
    match o {
        None => "None".to_owned(),
        Some(s) => {
            let mut r = "Some(\n        ".to_owned();
            let q = debug_str(s.as_str());
            r.append(q.as_str());
            r.append(",\n    )");
            r
        },
    }
}

/// The first line of a struct in the pretty layout.
pub open spec fn struct_open(name: Seq<char>) -> Seq<char> {
    name + " {\n"@
}

/// A field's line in the pretty layout.
pub open spec fn field_line(name: Seq<char>, value: Seq<char>) -> Seq<char> {
    "    "@ + name + ": "@ + value + ",\n"@
}

/// The last line of a struct in the pretty layout.
pub open spec fn struct_close() -> Seq<char> {
    "}"@
}

pub fn push_struct_open(out: &mut String, name: &str)
    ensures
        final(out)@ == old(out)@ + struct_open(name@),
{
    out.append(name);
    out.append(" {\n");
}

pub fn push_field(out: &mut String, name: &str, value: &str)
    ensures
        final(out)@ == old(out)@ + field_line(name@, value@),
{
    out.append("    ");
    out.append(name);
    out.append(": ");
    out.append(value);
    out.append(",\n");
    assert(final(out)@ =~= old(out)@ + field_line(name@, value@));
}

pub fn push_struct_close(out: &mut String)
    ensures
        final(out)@ == old(out)@ + struct_close(),
{
    out.append("}");
}

} // verus!
