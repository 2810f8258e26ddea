//! Run configuration: destination, encryption flag, round count, interval.
//!
//! The inter-probe interval arrives as a human-readable duration string and
//! is parsed into nanoseconds; when no interval is given, a 100 ms default
//! applies. A missing round count means an unbounded run.
//!
//! Interval strings are held to a digit budget before the duration grammar
//! is consulted: see `MAX_INTERVAL_DIGITS`.

use vstd::prelude::*;
use vstd::string::StrSliceExecFns;

verus! {

/// Transport configuration taken from the command line: the destination
/// (host, optionally followed by `:port`) and whether to use TLS.
#[derive(Clone, Debug)]
pub struct TransportCLIConfig {
    /// Use TLS.
    pub tls: bool,
    /// Host and port.
    pub addr: String,
}

impl TransportCLIConfig {
    /// Bundle a destination with its encryption flag.
    pub fn new(tls: bool, addr: String) -> (c: Self)
        ensures
            c.tls == tls,
            c.addr@ == addr@,
    {
        TransportCLIConfig { tls, addr }
    }
}

/// Default inter-probe interval: 100 ms, in nanoseconds.
pub const DEFAULT_INTERVAL_NANOS: u64 = 100_000_000;

/// The most digit characters an interval string may hold. Numbers enter
/// the duration grammar only through ASCII digits, a value read from `d`
/// digits is below `10^d`, and the grammar's largest unit is the year
/// (31 557 600 seconds); so within this budget every duration the string
/// can denote stays below `10^11 * 31_557_600` seconds, far under the
/// seconds counter's maximum, and the parser's duration constructor can
/// never abort on the nanosecond carry.
pub const MAX_INTERVAL_DIGITS: usize = 11;

/// Whether a character is an ASCII decimal digit.
pub open spec fn spec_is_digit(c: char) -> bool {
    48 <= c as u32 && c as u32 <= 57
}

/// The number of digit characters in a string.
pub open spec fn digit_count(s: Seq<char>) -> int
    decreases s.len(),
{
    if s.len() == 0 {
        0
    } else {
        digit_count(s.drop_last()) + if spec_is_digit(s.last()) {
            1int
        } else {
            0int
        }
    }
}

/// Whether an interval string keeps to the digit budget under which the
/// duration parser is consulted.
pub open spec fn interval_digits_ok(s: Seq<char>) -> bool {
    digit_count(s) <= MAX_INTERVAL_DIGITS as int
}

/// Count the digit characters of a string.
fn count_digits(s: &str) -> (n: usize)
    ensures
        n == digit_count(s@),
{
    let len: usize = s.unicode_len();
    let mut n: usize = 0;
    let mut i: usize = 0;
    while i < len
        invariant
            0 <= i <= len,
            len == s@.len(),
            n <= i,
            n == digit_count(s@.take(i as int)),
        decreases len - i,
    {
        let c = s.get_char(i);
        proof {
            assert(s@.take((i + 1) as int).drop_last() =~= s@.take(i as int));
            assert(s@.take((i + 1) as int).last() == s@[i as int]);
        }
        let u = c as u32;
        if 48 <= u && u <= 57 {
            n = n + 1;
        }
        i = i + 1;
    }
    proof {
        assert(s@.take(len as int) =~= s@);
    }
    n
}

/// What `parse_interval_nanos` returns for a given duration string: `Some`
/// of the duration in nanoseconds when the string parses and fits in `u64`,
/// `None` otherwise.
pub uninterp spec fn duration_nanos_of(s: Seq<char>) -> Option<u64>;

/// Relies on `humantime::parse_duration`: the parse of a human-readable
/// duration string is a function of its characters alone. The digit budget
/// required here keeps every duration the grammar can denote below the
/// parser's seconds capacity, on whose last value its duration constructor
/// would abort when an exact one-second nanosecond carry lands on it.
#[verifier::external_body]
fn parse_interval_nanos(s: &str) -> (r: Option<u64>)
    requires
        interval_digits_ok(s@),
    ensures
        r == duration_nanos_of(s@),
{
    humantime::parse_duration(s).ok().and_then(|d| u64::try_from(d.as_nanos()).ok())
}

/// Why a run configuration could not be built.
#[derive(Clone, Copy, Debug, PartialEq, Eq, Structural)]
pub enum ConfigError {
    /// The interval string is not a valid duration (or does not fit).
    InvalidInterval,
}

/// The validated configuration of one run.
#[derive(Clone, Debug)]
pub struct RunConfig {
    /// Use TLS.
    pub tls: bool,
    /// Host and port.
    pub addr: String,
    /// Number of measurement rounds; `None` means unbounded.
    pub count: Option<u64>,
    /// Inter-probe interval in nanoseconds.
    pub interval_nanos: u64,
}

/// Build the configuration of one run. The interval string, when present,
/// must keep to the digit budget and parse as a duration; when absent, the
/// 100 ms default applies.
pub fn build_run_config(transport: TransportCLIConfig, count: Option<u64>, interval: Option<&str>) -> (r: Result<
    RunConfig,
    ConfigError,
>)
    ensures
        match r {
            Ok(c) => {
                &&& c.tls == transport.tls
                &&& c.addr@ == transport.addr@
                &&& c.count == count
                &&& match interval {
                    None => c.interval_nanos == DEFAULT_INTERVAL_NANOS,
                    Some(s) => {
                        &&& interval_digits_ok(s@)
                        &&& duration_nanos_of(s@) == Some(c.interval_nanos)
                    },
                }
            },
            Err(e) => {
                &&& e == ConfigError::InvalidInterval
                &&& match interval {
                    None => false,
                    Some(s) => !interval_digits_ok(s@) || duration_nanos_of(s@) is None,
                }
            },
        },
{
    let interval_nanos: u64 = match interval {
        None => DEFAULT_INTERVAL_NANOS,
        Some(s) => {
            if count_digits(s) > MAX_INTERVAL_DIGITS {
                return Err(ConfigError::InvalidInterval);
            }
            match parse_interval_nanos(s) {
                Some(n) => n,
                None => {
                    return Err(ConfigError::InvalidInterval);
                },
            }
        },
    };
    Ok(RunConfig { tls: transport.tls, addr: transport.addr, count, interval_nanos })
}

} // verus!
