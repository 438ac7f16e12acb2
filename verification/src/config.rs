//! What the server is configured with, and what it falls back to where
//! the environment says nothing.

use vstd::prelude::*;
use vstd::string::*;
use crate::session::DEFAULT_SESSION_EXPIRATION;
use crate::text::{owned_text_of, text_of};

verus! {

/// The port that the server listens on where none is configured.
pub const DEFAULT_PORT: u16 = 8080;

/// Whether a character is a decimal digit.
pub open spec fn is_digit(c: char) -> bool {
    '0' <= c <= '9'
}

/// The number that a sequence of decimal digits denotes.
pub open spec fn decimal_value(digits: Seq<char>) -> nat
    decreases digits.len(),
{
    if digits.len() == 0 {
        0
    } else {
        decimal_value(digits.drop_last()) * 10 + (digits.last() as nat - '0' as nat) as nat
    }
}

/// Whether a text is made of decimal digits, and of one at least.
pub open spec fn is_decimal(digits: Seq<char>) -> bool {
    digits.len() > 0 && forall|index: int| 0 <= index < digits.len() ==> is_digit(digits[index])
}

/// The digits of a text that may begin with a plus sign.
pub open spec fn unsigned_digits(text: Seq<char>) -> Seq<char> {
    if text.len() > 0 && text[0] == '+' {
        text.skip(1)
    } else {
        text
    }
}

/// The number that a text denotes, where it denotes one that is at most
/// `max`: decimal digits, which a plus sign may precede, and nothing
/// else.
pub open spec fn parse_decimal(text: Seq<char>, max: nat) -> Option<nat> {
    let digits = unsigned_digits(text);
    if is_decimal(digits) && decimal_value(digits) <= max {
        Some(decimal_value(digits))
    } else {
        None
    }
}

/// More digits never denote less.
proof fn decimal_value_grows(digits: Seq<char>, shorter: int)
    requires
        0 <= shorter <= digits.len(),
    ensures
        decimal_value(digits.take(shorter)) <= decimal_value(digits),
    decreases digits.len() - shorter,
{
    if shorter < digits.len() {
        decimal_value_grows(digits, shorter + 1);
        let longer = digits.take(shorter + 1);
        assert(longer.drop_last() =~= digits.take(shorter));
    } else {
        assert(digits.take(shorter) =~= digits);
    }
}

/// Reads a number that is at most `max`.
pub fn parse_bounded(text: &str, max: u64) -> (value: Option<u64>)
    ensures
        match value {
            Some(number) => parse_decimal(text@, max as nat) == Some(number as nat),
            None => parse_decimal(text@, max as nat) is None,
        },
{
    let length = text.unicode_len();
    let start: usize = if length > 0 && text.get_char(0) == '+' {
        1
    } else {
        0
    };
    let ghost digits = unsigned_digits(text@);
    assert(digits =~= text@.skip(start as int));
    if start == length {
        return None;
    }
    let mut number: u64 = 0;
    let mut index: usize = start;
    assert(digits.take(0) =~= Seq::<char>::empty());
    while index < length
        invariant
            start <= index <= length,
            length == text@.len(),
            digits == unsigned_digits(text@),
            digits == text@.skip(start as int),
            digits.len() == length - start,
            forall|seen: int| 0 <= seen < index - start ==> is_digit(digits[seen]),
            number == decimal_value(digits.take(index - start)),
            number <= max,
        decreases length - index,
    {
        let c = text.get_char(index);
        assert(c == digits[index - start]);
        if c < '0' || c > '9' {
            assert(!is_digit(digits[index - start]));
            return None;
        }
        let digit: u64 = (c as u64) - ('0' as u64);
        proof {
            let longer = digits.take(index - start + 1);
            assert(longer.drop_last() =~= digits.take(index - start));
            assert(longer.last() == c);
            assert(decimal_value(longer) == number * 10 + digit);
            decimal_value_grows(digits, index - start + 1);
        }
        if digit > max || number > (max - digit) / 10 {
            assert(number * 10 + digit > max);
            return None;
        }
        number = number * 10 + digit;
        index = index + 1;
    }
    assert(digits.take(length - start) =~= digits);
    Some(number)
}

/// How long sessions live, in seconds: what is configured, or 14 days
/// where nothing is. A configured text that is no number of seconds
/// gives `None`.
pub open spec fn session_expiration_for(configured: Option<Seq<char>>) -> Option<u64> {
    match configured {
        None => Some(DEFAULT_SESSION_EXPIRATION),
        Some(text) => match parse_decimal(text, u64::MAX as nat) {
            Some(seconds) => Some(seconds as u64),
            None => None,
        },
    }
}

/// Reads how long sessions live from what is configured.
pub fn session_expiration(configured: Option<&str>) -> (seconds: Option<u64>)
    ensures
        seconds == session_expiration_for(text_of(configured)),
{
    match configured {
        None => Some(DEFAULT_SESSION_EXPIRATION),
        Some(text) => parse_bounded(text, u64::MAX),
    }
}

/// The port to listen on: what is configured, or 8080 where nothing is.
/// A configured text that is no port number gives `None`.
pub open spec fn port_for(configured: Option<Seq<char>>) -> Option<u16> {
    match configured {
        None => Some(DEFAULT_PORT),
        Some(text) => match parse_decimal(text, u16::MAX as nat) {
            Some(port) => Some(port as u16),
            None => None,
        },
    }
}

/// Reads the port to listen on from what is configured.
pub fn port(configured: Option<&str>) -> (number: Option<u16>)
    ensures
        number == port_for(text_of(configured)),
{
    match configured {
        None => Some(DEFAULT_PORT),
        Some(text) => match parse_bounded(text, 65535) {
            Some(port) => Some(port as u16),
            None => None,
        },
    }
}

/// Where the services are found.
#[derive(Debug)]
pub struct ServerConfig {
    pub database_name: String,
    pub database_user: String,
    pub database_password: String,
    pub database_host: String,
    /// The address of the credential store.
    pub cache_url: String,
    /// The token presented to the provisioning service, if there is one.
    pub provisioning_token: Option<String>,
}

pub struct ServerConfigView {
    pub database_name: Seq<char>,
    pub database_user: Seq<char>,
    pub database_password: Seq<char>,
    pub database_host: Seq<char>,
    pub cache_url: Seq<char>,
    pub provisioning_token: Option<Seq<char>>,
}

impl View for ServerConfig {
    type V = ServerConfigView;

    open spec fn view(&self) -> ServerConfigView {
        ServerConfigView {
            database_name: self.database_name@,
            database_user: self.database_user@,
            database_password: self.database_password@,
            database_host: self.database_host@,
            cache_url: self.cache_url@,
            provisioning_token: match self.provisioning_token {
                Some(token) => Some(token@),
                None => None,
            },
        }
    }
}

/// What is configured, or the fallback where nothing is.
pub open spec fn configured_or(configured: Option<Seq<char>>, fallback: Seq<char>) -> Seq<char> {
    match configured {
        Some(text) => text,
        None => fallback,
    }
}

/// Takes what is configured, or the fallback where nothing is.
pub fn or_default(configured: Option<String>, fallback: &str) -> (text: String)
    ensures
        text@ == configured_or(owned_text_of(configured), fallback@),
{
    match configured {
        Some(text) => text,
        None => String::from_str(fallback),
    }
}

/// The settings that the environment gives.
pub open spec fn settings_for(
    database_name: Option<Seq<char>>,
    database_user: Option<Seq<char>>,
    database_password: Option<Seq<char>>,
    database_host: Option<Seq<char>>,
    cache_host: Option<Seq<char>>,
    provisioning_token: Option<Seq<char>>,
) -> ServerConfigView {
    ServerConfigView {
        database_name: configured_or(database_name, "limdb"@),
        database_user: configured_or(database_user, "limadmin"@),
        database_password: configured_or(database_password, "limpassword"@),
        database_host: configured_or(database_host, "localhost"@),
        cache_url: "redis://"@ + configured_or(cache_host, "127.0.0.1"@),
        provisioning_token,
    }
}

/// Builds the settings from what the environment holds under
/// `POSTGRES_DB`, `POSTGRES_USER`, `POSTGRES_PASSWORD`, `POSTGRES_HOST`,
/// `REDIS_URL` and `FLY_API_TOKEN`.
pub fn generate_default_server_config(
    database_name: Option<String>,
    database_user: Option<String>,
    database_password: Option<String>,
    database_host: Option<String>,
    cache_host: Option<String>,
    provisioning_token: Option<String>,
) -> (settings: ServerConfig)
    ensures
        settings@ == settings_for(
            owned_text_of(database_name),
            owned_text_of(database_user),
            owned_text_of(database_password),
            owned_text_of(database_host),
            owned_text_of(cache_host),
            owned_text_of(provisioning_token),
        ),
{
    let cache_host = or_default(cache_host, "127.0.0.1");
    ServerConfig {
        database_name: or_default(database_name, "limdb"),
        database_user: or_default(database_user, "limadmin"),
        database_password: or_default(database_password, "limpassword"),
        database_host: or_default(database_host, "localhost"),
        cache_url: String::from_str("redis://").concat(cache_host.as_str()),
        provisioning_token,
    }
}

} // verus!
