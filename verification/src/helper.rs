//! Small formatting helpers.

use vstd::prelude::*;
use vstd::string::StringExecFns;
use crate::text::{decimal, push_decimal};

verus! {

/// How an elapsed time of `ms` milliseconds is written: in milliseconds
/// below one second, in whole seconds below one minute, in minutes and
/// seconds below one hour, and in hours, minutes and seconds from there on.
pub open spec fn duration_text(ms: nat) -> Seq<char> {
    let s = ms / 1000;
    let m = s / 60;
    if ms < 1000 {
        decimal(ms) + "ms"@
    } else if s < 60 {
        decimal(s) + "s"@
    } else if m < 60 {
        decimal(m) + "m"@ + decimal(s % 60) + "s"@
    } else {
        decimal(m / 60) + "h"@ + decimal(m % 60) + "m"@ + decimal(s % 60) + "s"@
    }
}

/// Writes an elapsed time, given in milliseconds, in the largest fitting
/// unit; fractions of the unit are dropped.
pub fn format_duration(millis: u128) -> (text: String)
    ensures
        text@ == duration_text(millis as nat),
{
    let mut text = String::new();
    if millis < 1000 {
        push_decimal(&mut text, millis);
        text.append("ms");
        return text;
    }
    let s: u128 = millis / 1000;
    if s < 60 {
        push_decimal(&mut text, s);
        text.append("s");
        return text;
    }
    let m: u128 = s / 60;
    let s: u128 = s % 60;
    if m < 60 {
        push_decimal(&mut text, m);
        text.append("m");
        push_decimal(&mut text, s);
        text.append("s");
        return text;
    }
    let h: u128 = m / 60;
    let m: u128 = m % 60;
    push_decimal(&mut text, h);
    text.append("h");
    push_decimal(&mut text, m);
    text.append("m");
    push_decimal(&mut text, s);
    text.append("s");
    text
}

/// The text of a path where it has one, and `default` where it has none
/// (a path that is not valid Unicode has no text).
pub fn path_to_string(path: Option<&str>, default: &str) -> (text: String)
    ensures
        text@ == match path {
            Some(s) => s@,
            None => default@,
        },
{
    match path {
        Some(s) => s.to_owned(),
        None => default.to_owned(),
    }
}

} // verus!
