//! Encoder configuration.
//!
//! The sample rate comes from an external setting (the `SAMPLE_RATE`
//! environment variable, read by the caller); an absent or unparsable
//! value silently falls back to the default of 48000 Hz.

use vstd::prelude::*;

verus! {

/// Default sample rate in Hz, used when no valid setting is supplied.
pub const DEFAULT_SAMPLE_RATE: u32 = 48000;

/// Encoder configuration, constructed once at session start and passed
/// by value into the encoder.
#[derive(Clone, Copy, Debug, PartialEq, Eq, Structural)]
pub struct Config {
    pub sample_rate: u32,
}

/// True when `c` is an ASCII decimal digit.
pub open spec fn is_decimal_digit(c: char) -> bool {
    48 <= c as int <= 57
}

/// Numeric value of the ASCII decimal digit `c`.
pub open spec fn digit_value(c: char) -> int {
    c as int - 48
}

/// True when every character of `s` is an ASCII decimal digit.
pub open spec fn all_decimal_digits(s: Seq<char>) -> bool {
    forall|i: int| 0 <= i < s.len() ==> is_decimal_digit(#[trigger] s[i])
}

/// Value of `s` read as a decimal numeral (most significant digit first).
pub open spec fn decimal_value(s: Seq<char>) -> int
    decreases s.len(),
{
    if s.len() == 0 {
        0
    } else {
        decimal_value(s.drop_last()) * 10 + digit_value(s.last())
    }
}

/// The digits of a numeral that may carry one optional leading plus
/// sign: the sign is dropped, everything else is kept.
pub open spec fn numeral_digits(s: Seq<char>) -> Seq<char> {
    if s.len() > 0 && s[0] == '+' {
        s.skip(1)
    } else {
        s
    }
}

/// True when `s` is a well-formed decimal numeral — at least one digit,
/// at most one leading plus sign — whose value fits in a `u32`.
pub open spec fn parses_as_u32(s: Seq<char>) -> bool {
    &&& numeral_digits(s).len() > 0
    &&& all_decimal_digits(numeral_digits(s))
    &&& decimal_value(numeral_digits(s)) <= u32::MAX
}

/// The sample rate that a raw setting denotes: its decimal value when it
/// is a well-formed numeral that fits, and the default otherwise.
pub open spec fn spec_sample_rate_of(setting: Option<Seq<char>>) -> u32 {
    match setting {
        Option::None => DEFAULT_SAMPLE_RATE,
        Option::Some(s) => if parses_as_u32(s) {
            decimal_value(numeral_digits(s)) as u32
        } else {
            DEFAULT_SAMPLE_RATE
        },
    }
}

proof fn lemma_decimal_value_nonneg(s: Seq<char>)
    requires
        all_decimal_digits(s),
    ensures
        decimal_value(s) >= 0,
    decreases s.len(),
{
    if s.len() > 0 {
        lemma_decimal_value_nonneg(s.drop_last());
    }
}

/// A decimal numeral is at least as large as any of its prefixes.
proof fn lemma_decimal_value_prefix_le(s: Seq<char>, i: int)
    requires
        all_decimal_digits(s),
        0 <= i <= s.len(),
    ensures
        decimal_value(s.take(i)) <= decimal_value(s),
    decreases s.len() - i,
{
    if i < s.len() {
        lemma_decimal_value_prefix_le(s, i + 1);
        let t = s.take(i + 1);
        assert(t.drop_last() =~= s.take(i));
        lemma_decimal_value_nonneg(s.take(i));
        assert(decimal_value(t) == decimal_value(s.take(i)) * 10 + digit_value(t.last()));
        assert(decimal_value(s.take(i)) * 10 >= decimal_value(s.take(i))) by (nonlinear_arith)
            requires decimal_value(s.take(i)) >= 0;
    } else {
        assert(s.take(i) =~= s);
    }
}

impl Config {
    /// Build a configuration with an explicitly chosen sample rate.
    pub fn new(sample_rate: u32) -> (c: Config)
        ensures
            c.sample_rate == sample_rate,
    {
        Config { sample_rate }
    }

    /// Build a configuration from the raw value of the sample-rate
    /// setting, falling back to the default when the setting is absent
    /// or does not parse as a `u32` (at most one leading plus sign,
    /// then decimal digits).
    pub fn from_setting(setting: Option<&str>) -> (c: Config)
        ensures
            c.sample_rate == spec_sample_rate_of(match setting {
                Option::None => Option::None,
                Option::Some(s) => Option::Some(s@),
            }),
    {
        match setting {
            Option::None => Config { sample_rate: DEFAULT_SAMPLE_RATE },
            Option::Some(s) => Config { sample_rate: parse_sample_rate(s) },
        }
    }
}

/// Parse a decimal sample rate with at most one leading plus sign,
/// substituting the default when the text has no digits, holds a
/// non-digit, or overflows a `u32`.
fn parse_sample_rate(s: &str) -> (rate: u32)
    ensures
        rate == spec_sample_rate_of(Option::Some(s@)),
{
    let len = s.unicode_len();
    let start: usize = if len > 0 && s.get_char(0) == '+' {
        1
    } else {
        0
    };
    let ghost digits = numeral_digits(s@);
    proof {
        assert(digits =~= s@.skip(start as int));
    }
    if start == len {
        return DEFAULT_SAMPLE_RATE;
    }
    let mut acc: u64 = 0;
    let mut i: usize = start;
    while i < len
        invariant
            start <= i <= len,
            len == s@.len(),
            digits == numeral_digits(s@),
            digits == s@.skip(start as int),
            forall|j: int| start <= j < i ==> is_decimal_digit(#[trigger] s@[j]),
            acc == decimal_value(s@.subrange(start as int, i as int)),
            acc <= u32::MAX,
        decreases len - i,
    {
        let c = s.get_char(i);
        let code = c as u32;
        if code < 48 || code > 57 {
            proof {
                assert(digits.len() == len - start);
                assert(digits[i - start as int] == s@[i as int]);
                assert(!is_decimal_digit(digits[i - start as int]));
                assert(!all_decimal_digits(digits));
            }
            return DEFAULT_SAMPLE_RATE;
        }
        let digit = (code - 48) as u64;
        let next: u64 = acc * 10 + digit;
        proof {
            let t = s@.subrange(start as int, i + 1);
            assert(t.drop_last() =~= s@.subrange(start as int, i as int));
            assert(t.last() == s@[i as int]);
            assert(next == decimal_value(t));
        }
        if next > 0xffff_ffff {
            proof {
                assert(digits.len() == len - start);
                if all_decimal_digits(digits) {
                    lemma_decimal_value_prefix_le(digits, i + 1 - start as int);
                    assert(digits.take(i + 1 - start as int)
                        =~= s@.subrange(start as int, i + 1));
                    assert(decimal_value(digits) >= decimal_value(
                        s@.subrange(start as int, i + 1),
                    ));
                    assert(decimal_value(digits) > u32::MAX);
                }
                assert(!parses_as_u32(s@));
            }
            return DEFAULT_SAMPLE_RATE;
        }
        acc = next;
        i = i + 1;
    }
    proof {
        assert(s@.subrange(start as int, len as int) =~= digits);
    }
    acc as u32
}

impl Default for Config {
    /// The default configuration uses the default sample rate.
    fn default() -> (c: Config)
        ensures
            c.sample_rate == DEFAULT_SAMPLE_RATE,
    {
        Config { sample_rate: DEFAULT_SAMPLE_RATE }
    }
}

} // verus!
