//! Calendar time, and file names that carry it.

use vstd::prelude::*;
use vstd::string::StringExecFns;

verus! {

/// A calendar date and time of day.
#[derive(Clone, Copy, PartialEq, Eq, Structural, Debug)]
pub struct tm_linux {
    pub year: u32,
    pub mon: u32,
    pub day: u32,
    pub hour: u32,
    pub min: u32,
    pub sec: u32,
}

impl tm_linux {
    /// All fields zero.
    pub fn new() -> (t: tm_linux)
        ensures
            t == (tm_linux { year: 0, mon: 0, day: 0, hour: 0, min: 0, sec: 0 }),
    {
        tm_linux { year: 0, mon: 0, day: 0, hour: 0, min: 0, sec: 0 }
    }
}

/// The character of the decimal digit `d`.
pub open spec fn digit_char(d: int) -> char {
    if d == 0 {
        '0'
    } else if d == 1 {
        '1'
    } else if d == 2 {
        '2'
    } else if d == 3 {
        '3'
    } else if d == 4 {
        '4'
    } else if d == 5 {
        '5'
    } else if d == 6 {
        '6'
    } else if d == 7 {
        '7'
    } else if d == 8 {
        '8'
    } else {
        '9'
    }
}

/// The decimal digits of `n`, without leading zeros.
pub open spec fn decimal(n: nat) -> Seq<char>
    decreases n,
{
    if n < 10 {
        seq![digit_char(n as int)]
    } else {
        decimal(n / 10).push(digit_char((n % 10) as int))
    }
}

/// The part of a file name that tells the time: the six fields in decimal,
/// from the year down to the second, with an underscore between them.
pub open spec fn spec_time_tag(t: tm_linux) -> Seq<char> {
    decimal(t.year as nat) + seq!['_'] + decimal(t.mon as nat) + seq!['_'] + decimal(
        t.day as nat,
    ) + seq!['_'] + decimal(t.hour as nat) + seq!['_'] + decimal(t.min as nat) + seq!['_']
        + decimal(t.sec as nat)
}

fn digit_str(d: u32) -> (s: &'static str)
    requires
        d < 10,
    ensures
        s@ == seq![digit_char(d as int)],
{
    proof {
        reveal_strlit("0");
        reveal_strlit("1");
        reveal_strlit("2");
        reveal_strlit("3");
        reveal_strlit("4");
        reveal_strlit("5");
        reveal_strlit("6");
        reveal_strlit("7");
        reveal_strlit("8");
        reveal_strlit("9");
    }
    if d == 0 {
        "0"
    } else if d == 1 {
        "1"
    } else if d == 2 {
        "2"
    } else if d == 3 {
        "3"
    } else if d == 4 {
        "4"
    } else if d == 5 {
        "5"
    } else if d == 6 {
        "6"
    } else if d == 7 {
        "7"
    } else if d == 8 {
        "8"
    } else {
        "9"
    }
}

/// Appends the decimal digits of `n` to `out`.
pub fn append_decimal(out: &mut String, n: u32)
    ensures
        final(out)@ == old(out)@ + decimal(n as nat),
    decreases n,
{
    if n >= 10 {
        append_decimal(out, n / 10);
    }
    out.append(digit_str(n % 10));
}

/// Appends to `filename` the name of a file made at the time `t`: the prefix,
/// the time, the extension and a terminating NUL.  Returns 0.
pub fn gmtime_filename(
    file_prefix: &String,
    file_ext: &String,
    t: &tm_linux,
    filename: &mut String,
) -> (ret: i32)
    ensures
        ret == 0,
        final(filename)@ == old(filename)@ + file_prefix@ + spec_time_tag(*t) + file_ext@
            + seq!['\0'],
{
    proof {
        reveal_strlit("_");
        reveal_strlit("\0");
    }
    filename.append(file_prefix.as_str());
    append_decimal(filename, t.year);
    filename.append("_");
    append_decimal(filename, t.mon);
    filename.append("_");
    append_decimal(filename, t.day);
    filename.append("_");
    append_decimal(filename, t.hour);
    filename.append("_");
    append_decimal(filename, t.min);
    filename.append("_");
    append_decimal(filename, t.sec);
    filename.append(file_ext.as_str());
    filename.append("\0");

    return 0;
}

} // verus!
