//! The configuration that the engine is constructed with.

use vstd::prelude::*;
use crate::types::{DbDateTime, MAX_DURATION_SECONDS, MAX_TIMESTAMP_MILLIS, MIN_TIMESTAMP_MILLIS};
use vstd::string::StrSliceExecFns;
use crate::utils::{first_true, lemma_first_true, str_equal};

verus! {

/// The environment that the service runs in.
#[derive(Clone, Copy, Debug, PartialEq, Eq, Structural)]
pub enum AppEnv {
    Dev,
    Prod,
}

impl AppEnv {
    /// The name `"Dev"` or `"Prod"`, spelled exactly so; nothing else names
    /// an environment.
    pub open spec fn spec_parse(name: Seq<char>) -> Option<AppEnv> {
        if name == "Dev"@ {
            Some(AppEnv::Dev)
        } else if name == "Prod"@ {
            Some(AppEnv::Prod)
        } else {
            None
        }
    }

    /// Reads an environment from its name.
    pub fn parse(name: &str) -> (r: Option<AppEnv>)
        ensures
            r == Self::spec_parse(name@),
    {
        if str_equal(name, "Dev") {
            Some(AppEnv::Dev)
        } else if str_equal(name, "Prod") {
            Some(AppEnv::Prod)
        } else {
            None
        }
    }

    /// The name of the environment.
    pub fn name(&self) -> (r: &'static str)
        ensures
            r@ == (match self {
                AppEnv::Dev => "Dev"@,
                AppEnv::Prod => "Prod"@,
            }),
    {
        match self {
            AppEnv::Dev => "Dev",
            AppEnv::Prod => "Prod",
        }
    }

    /// Whether this is the development environment.
    pub fn is_dev(&self) -> (r: bool)
        ensures
            r == (*self == AppEnv::Dev),
    {
        matches!(self, AppEnv::Dev)
    }

    /// Whether this is the production environment.
    pub fn is_prod(&self) -> (r: bool)
        ensures
            r == (*self == AppEnv::Prod),
    {
        matches!(self, AppEnv::Prod)
    }
}

/// Whether `c` is one of the digits `0` to `9`.
pub open spec fn is_decimal_digit(c: char) -> bool {
    '0' <= c <= '9'
}

/// The number that the digits write in decimal.
pub open spec fn digits_value(digits: Seq<char>) -> nat
    decreases digits.len(),
{
    if digits.len() == 0 {
        0
    } else {
        (digits_value(digits.drop_last()) * 10 + (digits.last() as u32 - '0' as u32)) as nat
    }
}

/// The number that `text` writes, where it is a numeral: digits only, at
/// least one.
pub open spec fn numeral_value(text: Seq<char>) -> Option<nat> {
    if text.len() > 0 && forall|i: int| 0 <= i < text.len() ==> is_decimal_digit(#[trigger] text[i]) {
        Some(digits_value(text))
    } else {
        None
    }
}

/// The number that `text` writes, where it is a numeral, with or without a
/// plus sign before it, of a number up to `max`. Spaces, separators and a
/// minus sign make it no number.
pub open spec fn spec_parse_unsigned(text: Seq<char>, max: nat) -> Option<nat> {
    let digits = if text.len() > 0 && text[0] == '+' {
        text.skip(1)
    } else {
        text
    };
    match numeral_value(digits) {
        Some(value) => if value <= max {
            Some(value)
        } else {
            None
        },
        None => None,
    }
}

/// The number that `text` writes, where it is a numeral, with or without a
/// sign before it, of a number from `-2^63` to `2^63 - 1`.
pub open spec fn spec_parse_i64(text: Seq<char>) -> Option<int> {
    if text.len() > 0 && text[0] == '-' {
        match numeral_value(text.skip(1)) {
            Some(value) => if value <= 0x8000_0000_0000_0000 {
                Some(-(value as int))
            } else {
                None
            },
            None => None,
        }
    } else {
        match spec_parse_unsigned(text, 0x7fff_ffff_ffff_ffff) {
            Some(value) => Some(value as int),
            None => None,
        }
    }
}

/// A numeral is worth at least as much as any of its prefixes.
pub proof fn lemma_digits_value_grows(digits: Seq<char>, n: int)
    requires
        0 <= n <= digits.len(),
        forall|i: int| 0 <= i < digits.len() ==> is_decimal_digit(#[trigger] digits[i]),
    ensures
        digits_value(digits.take(n)) <= digits_value(digits),
    decreases digits.len() - n,
{
    if n < digits.len() {
        lemma_digits_value_grows(digits, n + 1);
        assert(digits.take(n + 1).drop_last() =~= digits.take(n));
        assert(is_decimal_digit(digits[n]));
    } else {
        assert(digits.take(n) =~= digits);
    }
}

/// Reads the digits of `text` from the character `from` on as a number up
/// to `max`.
fn parse_digits(text: &str, from: usize, max: u64) -> (r: Option<u64>)
    requires
        from <= text@.len(),
    ensures
        r == (match numeral_value(text@.skip(from as int)) {
            Some(value) => if value <= max {
                Some(value as u64)
            } else {
                None
            },
            None => None,
        }),
{
    let n = text.unicode_len();
    let ghost digits = text@.skip(from as int);
    if from == n {
        return None;
    }
    let mut value: u64 = 0;
    let mut i: usize = from;
    while i < n
        invariant
            from <= i <= n,
            n == text@.len(),
            digits == text@.skip(from as int),
            forall|j: int| 0 <= j < i - from ==> is_decimal_digit(#[trigger] digits[j]),
            value == digits_value(digits.take(i - from)),
            value <= max,
        decreases n - i,
    {
        let c = text.get_char(i);
        assert(c == digits[i - from]);
        if !('0' <= c && c <= '9') {
            return None;
        }
        let d = (c as u32 - '0' as u32) as u64;
        proof {
            assert(digits.take(i - from + 1).drop_last() =~= digits.take(i - from));
            assert(digits.take(i - from + 1).last() == c);
        }
        if d > max || value > (max - d) / 10 {
            proof {
                if forall|j: int| 0 <= j < digits.len() ==> is_decimal_digit(#[trigger] digits[j]) {
                    lemma_digits_value_grows(digits, i - from + 1);
                }
            }
            return None;
        }
        value = value * 10 + d;
        i += 1;
    }
    assert(digits.take(n - from) =~= digits);
    Some(value)
}

/// Reads a number up to `max` as the standard library reads an unsigned
/// integer.
pub fn parse_unsigned(text: &str, max: u64) -> (r: Option<u64>)
    ensures
        r == (match spec_parse_unsigned(text@, max as nat) {
            Some(value) => Some(value as u64),
            None => None,
        }),
{
    let n = text.unicode_len();
    if n > 0 && text.get_char(0) == '+' {
        parse_digits(text, 1, max)
    } else {
        assert(text@.skip(0) =~= text@);
        parse_digits(text, 0, max)
    }
}

/// Reads a `u16` as the standard library does.
pub fn parse_u16(text: &str) -> (r: Option<u16>)
    ensures
        r == (match spec_parse_unsigned(text@, 0xffff) {
            Some(value) => Some(value as u16),
            None => None,
        }),
{
    match parse_unsigned(text, 0xffff) {
        Some(value) => Some(value as u16),
        None => None,
    }
}

/// Reads an `i64` as the standard library does.
pub fn parse_i64(text: &str) -> (r: Option<i64>)
    ensures
        r == (match spec_parse_i64(text@) {
            Some(value) => Some(value as i64),
            None => None,
        }),
{
    let n = text.unicode_len();
    if n > 0 && text.get_char(0) == '-' {
        match parse_digits(text, 1, 0x8000_0000_0000_0000) {
            Some(value) => if value == 0x8000_0000_0000_0000 {
                Some(i64::MIN)
            } else {
                Some(-(value as i64))
            },
            None => None,
        }
    } else {
        match parse_unsigned(text, 0x7fff_ffff_ffff_ffff) {
            Some(value) => Some(value as i64),
            None => None,
        }
    }
}

/// For each position of `text` but the last, whether two dots stand there.
pub open spec fn dot_pair_hits(text: Seq<char>) -> Seq<bool> {
    if text.len() < 2 {
        Seq::empty()
    } else {
        Seq::new((text.len() - 1) as nat, |i: int| text[i] == '.' && text[i + 1] == '.')
    }
}

/// The range that `text` writes as `start..end`: what stands before the
/// first pair of dots and what stands after it, each read as a `u16`.
pub open spec fn spec_get_range(text: Seq<char>) -> Option<(u16, u16)> {
    match first_true(dot_pair_hits(text)) {
        Some(i) => match (
            spec_parse_unsigned(text.subrange(0, i), 0xffff),
            spec_parse_unsigned(text.subrange(i + 2, text.len() as int), 0xffff),
        ) {
            (Some(start), Some(end)) => Some((start as u16, end as u16)),
            _ => None,
        },
        None => None,
    }
}

/// Reads a range of status codes written as `start..end`.
pub fn get_range(value: &str) -> (r: Option<(u16, u16)>)
    ensures
        r == spec_get_range(value@),
{
    let n = value.unicode_len();
    let ghost hits = dot_pair_hits(value@);
    if n < 2 {
        proof {
            lemma_first_true(hits);
        }
        return None;
    }
    let mut i: usize = 0;
    while i < n - 1
        invariant
            2 <= n == value@.len(),
            i <= n - 1,
            hits == dot_pair_hits(value@),
            forall|j: int| 0 <= j < i ==> !hits[j],
        decreases n - i,
    {
        if value.get_char(i) == '.' && value.get_char(i + 1) == '.' {
            proof {
                lemma_first_true(hits);
                assert(hits[i as int]);
            }
            let start = parse_u16(value.substring_char(0, i));
            let end = parse_u16(value.substring_char(i + 2, n));
            return match (start, end) {
                (Some(start), Some(end)) => Some((start, end)),
                _ => None,
            };
        }
        i += 1;
    }
    proof {
        lemma_first_true(hits);
    }
    None
}

/// What the operator configures: where to listen, where the data lives, what
/// to log, and how long sessions and passcodes last. Durations are in whole
/// seconds.
#[derive(Debug)]
pub struct AppConfig {
    pub host: String,
    pub port: String,
    pub db_url: String,
    pub sql_log_level: String,
    pub status_code_range_for_error_logging: (u16, u16),
    pub session_duration: i64,
    pub session_refresh_duration: i64,
    pub otp_validity_duration: i64,
}

impl AppConfig {
    /// The three durations are positive and bounded, and a session can be
    /// renewed strictly longer than it can be used.
    pub open spec fn durations_valid(session: i64, refresh: i64, otp: i64) -> bool {
        &&& 0 < session < refresh <= MAX_DURATION_SECONDS
        &&& 0 < otp <= MAX_DURATION_SECONDS
    }

    /// The durations are valid.
    pub open spec fn wf(&self) -> bool {
        Self::durations_valid(
            self.session_duration,
            self.session_refresh_duration,
            self.otp_validity_duration,
        )
    }

    /// Every deadline counted from `now` is an instant that the calendar can
    /// name.
    pub open spec fn admits(&self, now: DbDateTime) -> bool {
        &&& now.wf()
        &&& now.spec_plus_seconds(self.session_refresh_duration) <= MAX_TIMESTAMP_MILLIS
        &&& now.spec_plus_seconds(self.otp_validity_duration) <= MAX_TIMESTAMP_MILLIS
    }

    /// Builds a configuration, or refuses durations that are not valid.
    pub fn new(
        host: String,
        port: String,
        db_url: String,
        sql_log_level: String,
        status_code_range_for_error_logging: (u16, u16),
        session_duration: i64,
        session_refresh_duration: i64,
        otp_validity_duration: i64,
    ) -> (r: Option<AppConfig>)
        ensures
            r is Some <==> Self::durations_valid(
                session_duration,
                session_refresh_duration,
                otp_validity_duration,
            ),
            r matches Some(c) ==> {
                &&& c.wf()
                &&& c.host == host
                &&& c.port == port
                &&& c.db_url == db_url
                &&& c.sql_log_level == sql_log_level
                &&& c.status_code_range_for_error_logging == status_code_range_for_error_logging
                &&& c.session_duration == session_duration
                &&& c.session_refresh_duration == session_refresh_duration
                &&& c.otp_validity_duration == otp_validity_duration
            },
    {
        if 0 < session_duration && session_duration < session_refresh_duration
            && session_refresh_duration <= MAX_DURATION_SECONDS && 0 < otp_validity_duration
            && otp_validity_duration <= MAX_DURATION_SECONDS {
            Some(
                AppConfig {
                    host,
                    port,
                    db_url,
                    sql_log_level,
                    status_code_range_for_error_logging,
                    session_duration,
                    session_refresh_duration,
                    otp_validity_duration,
                },
            )
        } else {
            None
        }
    }

    /// Whether the durations are valid.
    pub fn is_valid(&self) -> (r: bool)
        ensures
            r == self.wf(),
    {
        0 < self.session_duration && self.session_duration < self.session_refresh_duration
            && self.session_refresh_duration <= MAX_DURATION_SECONDS && 0
            < self.otp_validity_duration && self.otp_validity_duration <= MAX_DURATION_SECONDS
    }

    /// Whether every deadline counted from `now` can be named.
    pub fn check_admits(&self, now: DbDateTime) -> (r: bool)
        requires
            self.wf(),
        ensures
            r == self.admits(now),
    {
        now.0 >= MIN_TIMESTAMP_MILLIS && now.0 <= MAX_TIMESTAMP_MILLIS
            && self.session_refresh_duration <= (MAX_TIMESTAMP_MILLIS - now.0) / 1000
            && self.otp_validity_duration <= (MAX_TIMESTAMP_MILLIS - now.0) / 1000
    }
}

impl Clone for AppConfig {
    fn clone(&self) -> (r: Self)
        ensures
            r == *self,
    {
        AppConfig {
            host: self.host.clone(),
            port: self.port.clone(),
            db_url: self.db_url.clone(),
            sql_log_level: self.sql_log_level.clone(),
            status_code_range_for_error_logging: self.status_code_range_for_error_logging,
            session_duration: self.session_duration,
            session_refresh_duration: self.session_refresh_duration,
            otp_validity_duration: self.otp_validity_duration,
        }
    }
}

} // verus!
