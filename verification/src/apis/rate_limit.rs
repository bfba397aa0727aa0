//! The rate-limit quota that responses advertise, and how it is recorded.

use vstd::prelude::*;
use vstd::string::*;
use vstd::utf8::*;

use crate::apis::configuration::{Configuration, ConfigurationView, DEFAULT_RATELIMIT};
use crate::apis::exchange::{Method, Response};

verus! {

/// The header that advertises how many requests are left in the window.
pub const RATE_LIMIT_REMAINING: &'static str = "Fastly-RateLimit-Remaining";

/// The header that advertises when the window ends.
pub const RATE_LIMIT_RESET: &'static str = "Fastly-RateLimit-Reset";

/// Whether every byte is an ASCII decimal digit.
pub open spec fn all_digits(bytes: Seq<u8>) -> bool {
    forall|i: int| 0 <= i < bytes.len() ==> 0x30 <= #[trigger] bytes[i] <= 0x39
}

/// The number that a run of decimal digits denotes.
pub open spec fn digits_value(digits: Seq<u8>) -> nat
    decreases digits.len(),
{
    if digits.len() == 0 {
        0
    } else {
        digits_value(digits.drop_last()) * 10 + (digits.last() - 0x30) as nat
    }
}

/// The bytes after an optional leading `+`.
pub open spec fn unsigned_digits(bytes: Seq<u8>) -> Seq<u8> {
    if bytes.len() > 0 && bytes[0] == 0x2B {
        bytes.subrange(1, bytes.len() as int)
    } else {
        bytes
    }
}

/// The `u64` that a header value denotes: an optional `+`, then one or
/// more decimal digits and nothing else, of a value that fits.
pub open spec fn unsigned_decimal(bytes: Seq<u8>) -> Option<u64> {
    let digits = unsigned_digits(bytes);
    if digits.len() > 0 && all_digits(digits) && digits_value(digits) <= u64::MAX {
        Some(digits_value(digits) as u64)
    } else {
        None
    }
}

/// The quota that a header gives: its number where the header was sent,
/// `fallback` where it was not, nothing where its value is no number.
pub open spec fn advertised(header: Option<String>, fallback: u64) -> Option<u64> {
    match header {
        Some(value) => unsigned_decimal(encode_utf8(value@)),
        None => Some(fallback),
    }
}

impl Response {
    /// Whether both rate-limit headers, as far as they were sent, hold
    /// numbers.
    pub open spec fn advertises_numbers(self) -> bool {
        &&& advertised(self.rate_limit_remaining, DEFAULT_RATELIMIT) is Some
        &&& advertised(self.rate_limit_reset, 0) is Some
    }
}

/// The configuration after a response to `method` has been recorded: the
/// quota and its reset time are replaced for every method but `GET` and
/// `HEAD`, and everything else stays.
pub open spec fn recorded(
    configuration: ConfigurationView,
    method: Method,
    response: Response,
) -> ConfigurationView {
    if method.is_counted() {
        ConfigurationView {
            rate_limit_remaining: advertised(response.rate_limit_remaining, DEFAULT_RATELIMIT)->0,
            rate_limit_reset: advertised(response.rate_limit_reset, 0)->0,
            ..configuration
        }
    } else {
        configuration
    }
}

/// After a response to any method but `GET` and `HEAD`, the quota and
/// the reset time are the numbers that the response's headers hold, and
/// [`DEFAULT_RATELIMIT`] and zero for a header that was not sent; nothing
/// else changes. After `GET` and `HEAD` the configuration is what it was.
pub proof fn lemma_recorded_rate_limit(
    configuration: ConfigurationView,
    method: Method,
    response: Response,
)
    requires
        method.is_counted() ==> response.advertises_numbers(),
    ensures
        !method.is_counted() ==> recorded(configuration, method, response) == configuration,
        method.is_counted() ==> ({
            let after = recorded(configuration, method, response);
            &&& match response.rate_limit_remaining {
                Some(value) => unsigned_decimal(encode_utf8(value@)) == Some(
                    after.rate_limit_remaining,
                ),
                None => after.rate_limit_remaining == DEFAULT_RATELIMIT,
            }
            &&& match response.rate_limit_reset {
                Some(value) => unsigned_decimal(encode_utf8(value@)) == Some(
                    after.rate_limit_reset,
                ),
                None => after.rate_limit_reset == 0,
            }
            &&& after.base_path == configuration.base_path
            &&& after.user_agent == configuration.user_agent
            &&& after.api_key == configuration.api_key
        }),
{
}

proof fn lemma_digits_value_grows(digits: Seq<u8>, upto: int)
    requires
        0 <= upto <= digits.len(),
        all_digits(digits),
    ensures
        digits_value(digits.take(upto)) <= digits_value(digits),
    decreases digits.len() - upto,
{
    if upto < digits.len() {
        lemma_digits_value_grows(digits, upto + 1);
        assert(digits.take(upto + 1).drop_last() == digits.take(upto));
    } else {
        assert(digits.take(upto) == digits);
    }
}

/// Reads the value of a rate-limit header as a `u64`, as `str::parse`
/// does.
pub fn parse_rate_limit(value: &str) -> (number: Option<u64>)
    ensures
        number == unsigned_decimal(value.spec_bytes()),
{
    let bytes = value.as_bytes();
    let start: usize = if bytes.len() > 0 && bytes[0] == 0x2B {
        1
    } else {
        0
    };
    if start == bytes.len() {
        return None;
    }
    let ghost digits = unsigned_digits(bytes@);
    let mut number: u64 = 0;
    let mut at: usize = start;
    while at < bytes.len()
        invariant
            start <= at <= bytes.len(),
            bytes@ == value.spec_bytes(),
            digits == unsigned_digits(bytes@),
            digits == bytes@.subrange(start as int, bytes.len() as int),
            all_digits(digits.take(at - start)),
            number == digits_value(digits.take(at - start)),
        decreases bytes.len() - at,
    {
        let byte = bytes[at];
        if byte < 0x30 || byte > 0x39 {
            assert(digits[at - start] == byte);
            return None;
        }
        let digit: u64 = (byte - 0x30) as u64;
        let ghost seen = digits.take(at - start + 1);
        assert(seen.drop_last() == digits.take(at - start));
        if number > (u64::MAX - digit) / 10 {
            proof {
                if all_digits(digits) {
                    lemma_digits_value_grows(digits, at - start + 1);
                }
            }
            return None;
        }
        number = number * 10 + digit;
        at += 1;
    }
    assert(digits.take(at - start) == digits);
    Some(number)
}

impl Response {
    /// Tests whether both rate-limit headers, as far as they were sent,
    /// hold numbers.
    pub fn has_numbers(&self) -> (numbers: bool)
        ensures
            numbers == self.advertises_numbers(),
    {
        let remaining = match &self.rate_limit_remaining {
            Some(value) => parse_rate_limit(value.as_str()).is_some(),
            None => true,
        };
        let reset = match &self.rate_limit_reset {
            Some(value) => parse_rate_limit(value.as_str()).is_some(),
            None => true,
        };
        remaining && reset
    }
}

/// Records what a response to `method` advertises. Nothing changes for
/// `GET` and `HEAD`. For every other method the remaining quota becomes
/// the header's number, or [`DEFAULT_RATELIMIT`] without the header, and
/// the reset time the header's number, or zero without the header.
pub fn record_rate_limit(configuration: &mut Configuration, method: Method, response: &Response)
    requires
        method.is_counted() ==> response.advertises_numbers(),
    ensures
        final(configuration)@ == recorded(old(configuration)@, method, *response),
{
    if method.counted() {
        configuration.rate_limit_remaining =
        match &response.rate_limit_remaining {
            Some(value) => parse_rate_limit(value.as_str()).unwrap(),
            None => DEFAULT_RATELIMIT,
        };
        configuration.rate_limit_reset =
        match &response.rate_limit_reset {
            Some(value) => parse_rate_limit(value.as_str()).unwrap(),
            None => 0,
        };
    }
}

} // verus!
