//! The settings of the proxy, read from texts that may be missing.
use vstd::prelude::*;

use crate::text::same_text;

verus! {

/// Where chats are sent to, if nothing else is said.
pub const DEFAULT_BACKEND_URL: &'static str = "https://llm.chutes.ai/v1/chat/completions";

/// How long the backend may take, in seconds, if nothing else is said.
pub const DEFAULT_BACKEND_TIMEOUT_SECS: u64 = 600;

/// The port to listen at, if nothing else is said.
pub const DEFAULT_PORT: u16 = 8282;

/// The settings of the proxy.
#[derive(Debug, PartialEq)]
pub struct Settings {
    pub backend_url: String,
    pub backend_timeout_secs: u64,
    pub log_volume_enabled: bool,
    pub port: u16,
}

/// Whether a character is a decimal digit.
pub open spec fn is_digit(c: char) -> bool {
    '0' <= c <= '9'
}

/// The number that digits stand for.
pub open spec fn digits_value(digits: Seq<char>) -> nat
    decreases digits.len(),
{
    if digits.len() == 0 {
        0
    } else {
        digits_value(digits.drop_last()) * 10 + (digits.last() as nat - '0' as nat) as nat
    }
}

/// A text without the plus sign that it may start with.
pub open spec fn without_plus(text: Seq<char>) -> Seq<char> {
    if text.len() > 0 && text.first() == '+' {
        text.drop_first()
    } else {
        text
    }
}

/// The number that a text stands for: digits, perhaps after a plus sign, for a number that is not
/// too large. Nothing else is a number.
pub open spec fn unsigned(text: Seq<char>, max: nat) -> Option<nat> {
    let digits = without_plus(text);
    if digits.len() > 0 && (forall|i: int| 0 <= i < digits.len() ==> is_digit(#[trigger] digits[i])) && digits_value(
        digits,
    ) <= max {
        Some(digits_value(digits))
    } else {
        None
    }
}

/// The truth value that a text names.
pub open spec fn truth(text: Seq<char>) -> Option<bool> {
    if text == "true"@ {
        Some(true)
    } else if text == "false"@ {
        Some(false)
    } else {
        None
    }
}

/// The number that a setting gives, or what it is without one.
pub open spec fn number_or(text: Option<String>, max: nat, default: nat) -> nat {
    match text {
        Some(text) => match unsigned(text@, max) {
            Some(value) => value,
            None => default,
        },
        None => default,
    }
}

proof fn lemma_digits_grow(digits: Seq<char>, i: int)
    requires
        0 <= i <= digits.len(),
    ensures
        digits_value(digits.take(i)) <= digits_value(digits),
    decreases digits.len(),
{
    if i == digits.len() {
        assert(digits.take(i) =~= digits);
    } else {
        assert(digits.drop_last().take(i) =~= digits.take(i));
        lemma_digits_grow(digits.drop_last(), i);
    }
}

/// Reads a number.
pub fn parse_unsigned(text: &str, max: u64) -> (number: Option<u64>)
    ensures
        match number {
            Some(value) => unsigned(text@, max as nat) == Some(value as nat),
            None => unsigned(text@, max as nat) is None,
        },
{
    let len = text.unicode_len();
    let ghost digits = without_plus(text@);
    let start: usize = if len > 0 && text.get_char(0) == '+' {
        1
    } else {
        0
    };
    if start == len {
        return None;
    }
    let mut value: u64 = 0;
    let mut i: usize = start;
    proof {
        assert(digits =~= text@.skip(start as int));
    }
    while i < len
        invariant
            start <= i <= len,
            len == text@.len(),
            digits == without_plus(text@),
            digits == text@.skip(start as int),
            value == digits_value(digits.take(i - start)),
            value <= max,
            forall|k: int| 0 <= k < i - start ==> is_digit(#[trigger] digits[k]),
        decreases len - i,
    {
        let c = text.get_char(i);
        let ghost place = i - start;
        proof {
            assert(digits[place] == c);
            assert(digits.take(place + 1).drop_last() =~= digits.take(place));
        }
        if !('0' <= c && c <= '9') {
            return None;
        }
        let digit: u64 = c as u64 - '0' as u64;
        proof {
            lemma_digits_grow(digits, place + 1);
        }
        if digit > max || value > (max - digit) / 10 {
            return None;
        }
        value = value * 10 + digit;
        i = i + 1;
    }
    proof {
        assert(digits.take(len - start) =~= digits);
    }
    Some(value)
}

/// Reads a truth value.
pub fn parse_bool(text: &str) -> (flag: Option<bool>)
    ensures
        flag == truth(text@),
{
    if same_text(text, "true") {
        Some(true)
    } else if same_text(text, "false") {
        Some(false)
    } else {
        None
    }
}

/// Reads a number, and takes another where there is none.
fn parse_number_or(text: &Option<String>, max: u64, default: u64) -> (number: u64)
    requires
        default <= max,
    ensures
        number == number_or(*text, max as nat, default as nat),
        number <= max,
{
    match text {
        Some(text) => match parse_unsigned(text.as_str(), max) {
            Some(value) => value,
            None => default,
        },
        None => default,
    }
}

/// Whether settings are what four texts say of them.
pub open spec fn read_as(
    settings: Settings,
    backend_url: Option<String>,
    backend_timeout_secs: Option<String>,
    enable_log_volume: Option<String>,
    host_port: Option<String>,
) -> bool {
    &&& settings.backend_url@ == match backend_url {
        Some(url) => url@,
        None => DEFAULT_BACKEND_URL@,
    }
    &&& settings.backend_timeout_secs == number_or(
        backend_timeout_secs,
        u64::MAX as nat,
        DEFAULT_BACKEND_TIMEOUT_SECS as nat,
    )
    &&& settings.log_volume_enabled <==> enable_log_volume is Some && truth(enable_log_volume->0@) == Some(true)
    &&& settings.port == number_or(host_port, u16::MAX as nat, DEFAULT_PORT as nat)
}

impl Settings {
    /// Reads the settings. A setting that is missing, or that is not what it should be, is as if
    /// nothing was said of it.
    pub fn read(
        backend_url: Option<String>,
        backend_timeout_secs: Option<String>,
        enable_log_volume: Option<String>,
        host_port: Option<String>,
    ) -> (settings: Settings)
        ensures
            settings.backend_url@ == match backend_url {
                Some(url) => url@,
                None => DEFAULT_BACKEND_URL@,
            },
            settings.backend_timeout_secs == number_or(
                backend_timeout_secs,
                u64::MAX as nat,
                DEFAULT_BACKEND_TIMEOUT_SECS as nat,
            ),
            settings.log_volume_enabled <==> enable_log_volume is Some && truth(enable_log_volume->0@) == Some(true),
            settings.port == number_or(host_port, u16::MAX as nat, DEFAULT_PORT as nat),
            read_as(settings, backend_url, backend_timeout_secs, enable_log_volume, host_port),
    {
        Settings {
            backend_url: match backend_url {
                Some(url) => url,
                None => DEFAULT_BACKEND_URL.to_string(),
            },
            backend_timeout_secs: parse_number_or(&backend_timeout_secs, u64::MAX, DEFAULT_BACKEND_TIMEOUT_SECS),
            log_volume_enabled: match enable_log_volume {
                Some(flag) => parse_bool(flag.as_str()).unwrap_or(false),
                None => false,
            },
            port: parse_number_or(&host_port, u16::MAX as u64, DEFAULT_PORT as u64) as u16,
        }
    }
}

} // verus!
