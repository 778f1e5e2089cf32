//! The settings of a run, resolved from the optional text values given for
//! them. A value that is absent or is not an unsigned decimal in range
//! falls back to the setting's default.
use vstd::prelude::*;
use vstd::string::StringExecFns;
use vstd::string::StrSliceExecFns;

verus! {

pub const DEFAULT_LENGTH: usize = 512;

pub const DEFAULT_DURATION: u64 = 60;

pub const DEFAULT_CONNECTIONS: u32 = 50;

/// The address used when none is given.
pub open spec fn spec_default_address() -> Seq<char> {
    "127.0.0.1:12345"@
}

pub open spec fn is_digit(c: char) -> bool {
    '0' <= c && c <= '9'
}

pub open spec fn digit_value(c: char) -> nat {
    (c as int - '0' as int) as nat
}

/// The number that a run of decimal digits spells, most significant first.
pub open spec fn digits_value(d: Seq<char>) -> nat
    decreases d.len(),
{
    if d.len() == 0 {
        0
    } else {
        digits_value(d.drop_last()) * 10 + digit_value(d.last())
    }
}

/// The digits of an unsigned decimal: the text after an optional leading `+`.
pub open spec fn unsigned_digits(s: Seq<char>) -> Seq<char> {
    if s.len() > 0 && s[0] == '+' {
        s.drop_first()
    } else {
        s
    }
}

/// An optional `+` followed by one or more decimal digits.
pub open spec fn is_unsigned(s: Seq<char>) -> bool {
    let d = unsigned_digits(s);
    d.len() > 0 && forall|i: int| 0 <= i < d.len() ==> is_digit(#[trigger] d[i])
}

/// The value of `s` read as an unsigned decimal no larger than `max`.
pub open spec fn spec_parse_unsigned(s: Seq<char>, max: nat) -> Option<nat> {
    if is_unsigned(s) && digits_value(unsigned_digits(s)) <= max {
        Some(digits_value(unsigned_digits(s)))
    } else {
        None
    }
}

proof fn digits_value_prefix(d: Seq<char>, j: int)
    requires
        0 <= j <= d.len(),
    ensures
        digits_value(d.take(j)) <= digits_value(d),
    decreases d.len() - j,
{
    if j < d.len() {
        digits_value_prefix(d, j + 1);
        assert(d.take(j + 1).drop_last() =~= d.take(j));
    } else {
        assert(d.take(j) =~= d);
    }
}

/// Reads `s` as an unsigned decimal: an optional `+`, then digits only,
/// with a value no larger than `max`.
pub fn parse_unsigned(s: &str, max: u64) -> (r: Option<u64>)
    ensures
        r is Some <==> spec_parse_unsigned(s@, max as nat) is Some,
        r is Some ==> r->Some_0 as nat == spec_parse_unsigned(s@, max as nat)->Some_0,
{
    let n = s.unicode_len();
    let ghost d = unsigned_digits(s@);
    let start: usize = if n > 0 && s.get_char(0) == '+' {
        1
    } else {
        0
    };
    assert(d =~= s@.subrange(start as int, n as int));
    if start == n {
        return None;
    }
    let mut value: u64 = 0;
    let mut i: usize = start;
    while i < n
        invariant
            start <= i <= n,
            n == s@.len(),
            d == s@.subrange(start as int, n as int),
            d == unsigned_digits(s@),
            value as nat == digits_value(d.take(i - start)),
            value <= max,
            forall|k: int| 0 <= k < i - start ==> is_digit(#[trigger] d[k]),
        decreases n - i,
    {
        let c = s.get_char(i);
        if !('0' <= c && c <= '9') {
            assert(!is_digit(d[i - start]));
            return None;
        }
        let dv: u64 = (c as u32 - '0' as u32) as u64;
        assert(d.take(i - start + 1).drop_last() =~= d.take(i - start));
        assert(d.take(i - start + 1).last() == c);
        let wide: u128 = value as u128 * 10 + dv as u128;
        assert(wide == digits_value(d.take(i - start + 1)));
        if wide > max as u128 {
            proof {
                digits_value_prefix(d, i - start + 1);
            }
            return None;
        }
        value = wide as u64;
        i = i + 1;
    }
    assert(d.take(i - start) =~= d);
    Some(value)
}

/// A setting's value: the given text read as an unsigned decimal no larger
/// than `max`, or `default` when the text is absent or not such a decimal.
pub open spec fn setting_value(text: Option<Seq<char>>, max: nat, default: nat) -> nat {
    match text {
        Some(t) => match spec_parse_unsigned(t, max) {
            Some(v) => v,
            None => default,
        },
        None => default,
    }
}

pub open spec fn text_of(s: Option<String>) -> Option<Seq<char>> {
    match s {
        Some(t) => Some(t@),
        None => None,
    }
}

fn setting(text: &Option<String>, max: u64, default: u64) -> (r: u64)
    requires
        default <= max,
    ensures
        r as nat == setting_value(text_of(*text), max as nat, default as nat),
{
    match text {
        Some(t) => match parse_unsigned(t.as_str(), max) {
            Some(v) => v,
            None => default,
        },
        None => default,
    }
}

/// Why a configuration was refused.
#[derive(Clone, Copy, Debug, PartialEq, Eq, Structural)]
pub enum ConfigError {
    /// The message length resolved to zero: a message needs at least its
    /// terminator byte.
    ZeroLength,
}

/// The settings of one run.
pub struct Config {
    pub address: String,
    pub message_length: usize,
    pub connection_count: u32,
    pub duration_seconds: u64,
}

impl Config {
    /// Resolves each setting from its optional text: the address as given,
    /// or the default address; the numbers read as unsigned decimals in
    /// range, or their defaults. A message length of zero is refused.
    pub fn from_settings(
        address: Option<String>,
        length: Option<String>,
        duration: Option<String>,
        number: Option<String>,
    ) -> (r: Result<Config, ConfigError>)
        ensures
            ({
                let len = setting_value(text_of(length), usize::MAX as nat, DEFAULT_LENGTH as nat);
                &&& r is Err <==> len == 0
                &&& r is Err ==> r->Err_0 == ConfigError::ZeroLength
                &&& r is Ok ==> r->Ok_0.message_length == len
                &&& r is Ok ==> r->Ok_0.address@ == match address {
                    Some(a) => a@,
                    None => spec_default_address(),
                }
                &&& r is Ok ==> r->Ok_0.duration_seconds == setting_value(
                    text_of(duration),
                    u64::MAX as nat,
                    DEFAULT_DURATION as nat,
                )
                &&& r is Ok ==> r->Ok_0.connection_count == setting_value(
                    text_of(number),
                    u32::MAX as nat,
                    DEFAULT_CONNECTIONS as nat,
                )
            }),
    {
        let message_length = setting(&length, usize::MAX as u64, DEFAULT_LENGTH as u64) as usize;
        if message_length == 0 {
            return Err(ConfigError::ZeroLength);
        }
        let duration_seconds = setting(&duration, u64::MAX, DEFAULT_DURATION);
        let connection_count = setting(&number, u32::MAX as u64, DEFAULT_CONNECTIONS as u64) as u32;
        let address = match address {
            Some(a) => a,
            None => default_address(),
        };
        Ok(Config { address, message_length, connection_count, duration_seconds })
    }
}

/// The address used when none is given.
pub fn default_address() -> (r: String)
    ensures
        r@ == spec_default_address(),
{
    String::from_str("127.0.0.1:12345")
}

} // verus!
