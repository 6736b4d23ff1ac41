//! Recording file names.
//!
//! A finished capture is archived under a dedicated `recordings`
//! directory, with a file name built deterministically from the UTC
//! capture-end time at second granularity:
//! `recordings/recording_<YYYYMMDDHHMMSS>.wav`.

use vstd::prelude::*;
use vstd::string::StringExecFns;

verus! {

/// A wall-clock instant in UTC, at second granularity, as plain values.
/// The caller reads the clock and converts; the library only formats.
#[derive(Clone, Copy, Debug, PartialEq, Eq, Structural)]
pub struct UtcTimestamp {
    pub year: u16,
    pub month: u8,
    pub day: u8,
    pub hour: u8,
    pub minute: u8,
    pub second: u8,
}

impl UtcTimestamp {
    /// A timestamp the file-name format can carry: a four-digit year
    /// and calendar-plausible fields.
    pub open spec fn wf(self) -> bool {
        &&& self.year <= 9999
        &&& 1 <= self.month <= 12
        &&& 1 <= self.day <= 31
        &&& self.hour <= 23
        &&& self.minute <= 59
        &&& self.second <= 59
    }
}

/// The ASCII digit for a value between 0 and 9.
pub open spec fn digit_char(d: int) -> char
    recommends
        0 <= d <= 9,
{
    if d == 0 { '0' }
    else if d == 1 { '1' }
    else if d == 2 { '2' }
    else if d == 3 { '3' }
    else if d == 4 { '4' }
    else if d == 5 { '5' }
    else if d == 6 { '6' }
    else if d == 7 { '7' }
    else if d == 8 { '8' }
    else { '9' }
}

/// A value below 100 as two zero-padded decimal digits.
pub open spec fn two_digits(n: int) -> Seq<char>
    recommends
        0 <= n <= 99,
{
    seq![digit_char(n / 10), digit_char(n % 10)]
}

/// A value below 10000 as four zero-padded decimal digits.
pub open spec fn four_digits(n: int) -> Seq<char>
    recommends
        0 <= n <= 9999,
{
    seq![
        digit_char(n / 1000),
        digit_char(n / 100 % 10),
        digit_char(n / 10 % 10),
        digit_char(n % 10),
    ]
}

/// The archive path for a capture that ended at `t`:
/// `recordings/recording_<YYYYMMDDHHMMSS>.wav`.
pub open spec fn spec_recording_path(t: UtcTimestamp) -> Seq<char> {
    "recordings/recording_"@
    + four_digits(t.year as int)
    + two_digits(t.month as int)
    + two_digits(t.day as int)
    + two_digits(t.hour as int)
    + two_digits(t.minute as int)
    + two_digits(t.second as int)
    + ".wav"@
}

/// The one-character string for a decimal digit.
fn digit_str(d: u8) -> (s: &'static str)
    requires
        d <= 9,
    ensures
        s@ == seq![digit_char(d as int)],
{
    proof {
        reveal_strlit("0");
        reveal_strlit("1");
        reveal_strlit("2");
        reveal_strlit("3");
        reveal_strlit("4");
        reveal_strlit("5");
        reveal_strlit("6");
        reveal_strlit("7");
        reveal_strlit("8");
        reveal_strlit("9");
    }
    let s = match d {
        0 => "0",
        1 => "1",
        2 => "2",
        3 => "3",
        4 => "4",
        5 => "5",
        6 => "6",
        7 => "7",
        8 => "8",
        _ => "9",
    };
    proof {
        assert(s@ =~= seq![digit_char(d as int)]);
    }
    s
}

/// Append `n` as two zero-padded decimal digits.
fn push_two_digits(out: &mut String, n: u8)
    requires
        n <= 99,
    ensures
        final(out)@ == old(out)@ + two_digits(n as int),
{
    out.append(digit_str(n / 10));
    out.append(digit_str(n % 10));
    proof {
        assert(out@ =~= old(out)@ + two_digits(n as int));
    }
}

/// Append `n` as four zero-padded decimal digits.
fn push_four_digits(out: &mut String, n: u16)
    requires
        n <= 9999,
    ensures
        final(out)@ == old(out)@ + four_digits(n as int),
{
    out.append(digit_str((n / 1000) as u8));
    out.append(digit_str((n / 100 % 10) as u8));
    out.append(digit_str((n / 10 % 10) as u8));
    out.append(digit_str((n % 10) as u8));
    proof {
        assert(out@ =~= old(out)@ + four_digits(n as int));
    }
}

/// Build the archive path for a capture that ended at `t`.
pub fn recording_path(t: &UtcTimestamp) -> (path: String)
    requires
        t.wf(),
    ensures
        path@ == spec_recording_path(*t),
{
    let mut path = String::from_str("recordings/recording_");
    push_four_digits(&mut path, t.year);
    push_two_digits(&mut path, t.month);
    push_two_digits(&mut path, t.day);
    push_two_digits(&mut path, t.hour);
    push_two_digits(&mut path, t.minute);
    push_two_digits(&mut path, t.second);
    path.append(".wav");
    proof {
        assert(path@ =~= spec_recording_path(*t));
    }
    path
}

} // verus!
