//! Configuration values and how they are read from named variables.

use vstd::prelude::*;
use vstd::string::StrSliceExecFns;

verus! {

/// The port that the server listens on where none is named.
pub const DEFAULT_PORT: u16 = 8080;

/// Settings of the authentication service.
#[derive(Debug, Clone, PartialEq, Eq)]
pub struct AuthConfig {
    pub production: bool,
    pub github_client_id: String,
    pub github_client_secret: String,
    pub session_secret_key: String,
    pub github_test_url: Option<String>,
}

/// Settings of the session service.
#[derive(Debug, Clone, PartialEq, Eq)]
pub struct SessionConfig {
    pub secret_key: String,
}

/// Settings of the server.
#[derive(Debug, Clone, PartialEq, Eq)]
pub struct ServerConfig {
    pub port: u16,
    pub database_url: String,
}

/// Settings of a token bucket.
#[derive(Debug, Clone, Copy, PartialEq, Eq, Structural)]
pub struct TokenBucketConfig {
    pub capacity: u8,
    pub refill_rate: u8,
}

/// Why the settings of the server cannot be made.
#[derive(Debug, Clone, Copy, PartialEq, Eq, Structural)]
pub enum ConfigFault {
    /// The port is not a number from 0 to 65535.
    PortNotANumber,
    /// The address of the database is not set.
    DatabaseUrlMissing,
}

/// The character is a decimal digit.
pub open spec fn is_digit(c: char) -> bool {
    '0' <= c <= '9'
}

/// The number that a sequence of decimal digits denotes.
pub open spec fn digits_value(digits: Seq<char>) -> int
    decreases digits.len(),
{
    if digits.len() == 0 {
        0
    } else {
        digits_value(digits.drop_last()) * 10 + (digits.last() as int - '0' as int)
    }
}

/// Every character of the text is a decimal digit.
pub open spec fn all_digits(digits: Seq<char>) -> bool {
    forall|i: int| 0 <= i < digits.len() ==> is_digit(#[trigger] digits[i])
}

/// The text without the plus sign that it may begin with.
pub open spec fn unsigned_part(text: Seq<char>) -> Seq<char> {
    if text.len() > 0 && text[0] == '+' {
        text.drop_first()
    } else {
        text
    }
}

/// The port that a text denotes: decimal digits, after a plus sign or
/// without one, that make a number of at most 65535. Every other text
/// denotes no port.
pub open spec fn parsed_port(text: Seq<char>) -> Option<u16> {
    let digits = unsigned_part(text);
    if digits.len() > 0 && all_digits(digits) && digits_value(digits) <= u16::MAX {
        Some(digits_value(digits) as u16)
    } else {
        None
    }
}

/// The digits read so far never denote more than all the digits do.
proof fn lemma_digits_value_grows(digits: Seq<char>, n: int)
    requires
        0 <= n <= digits.len(),
        all_digits(digits),
    ensures
        0 <= digits_value(digits.take(n)) <= digits_value(digits),
    decreases digits.len() - n,
{
    if n == digits.len() {
        assert(digits.take(n) =~= digits);
        lemma_digits_value_grows_from_zero(digits);
    } else {
        lemma_digits_value_grows(digits, n + 1);
        assert(digits.take(n + 1).drop_last() =~= digits.take(n));
        assert(is_digit(digits[n]));
        lemma_digits_value_grows_from_zero(digits.take(n));
    }
}

/// Decimal digits denote a number that is not negative.
proof fn lemma_digits_value_grows_from_zero(digits: Seq<char>)
    requires
        all_digits(digits),
    ensures
        0 <= digits_value(digits),
    decreases digits.len(),
{
    if digits.len() > 0 {
        assert(is_digit(digits.last()));
        lemma_digits_value_grows_from_zero(digits.drop_last());
    }
}

/// Reads a port from a text.
pub fn parse_port(text: &str) -> (port: Option<u16>)
    ensures
        port == parsed_port(text@),
{
    let len = text.unicode_len();
    let start: usize = if len > 0 && text.get_char(0) == '+' {
        1
    } else {
        0
    };
    let ghost digits = unsigned_part(text@);
    if start == len {
        return None;
    }
    assert(digits =~= text@.subrange(start as int, len as int));
    let mut value: u32 = 0;
    let mut i: usize = start;
    while i < len
        invariant
            len == text@.len(),
            start <= i <= len,
            start <= 1,
            digits == unsigned_part(text@),
            digits == text@.subrange(start as int, len as int),
            all_digits(digits.take(i - start)),
            value == digits_value(digits.take(i - start)),
            value <= u16::MAX,
        decreases len - i,
    {
        let c = text.get_char(i);
        assert(c == digits[i - start]);
        if c < '0' || c > '9' {
            assert(!is_digit(digits[i - start]));
            return None;
        }
        proof {
            let read = digits.take(i - start + 1);
            assert(read.drop_last() =~= digits.take(i - start));
            assert forall|k: int| 0 <= k < read.len() implies is_digit(#[trigger] read[k]) by {
                if k < i - start {
                    assert(read[k] == digits.take(i - start)[k]);
                }
            }
        }
        value = value * 10 + (c as u32 - '0' as u32);
        if value > 65535 {
            proof {
                if all_digits(digits) {
                    lemma_digits_value_grows(digits, i - start + 1);
                }
            }
            return None;
        }
        i += 1;
    }
    assert(digits.take(len - start) =~= digits);
    Some(value as u16)
}

impl ServerConfig {
    /// The settings that the values of the variables `PORT` and
    /// `DATABASE_URL` give, `None` standing for a variable that is not set.
    /// The port is `DEFAULT_PORT` where none is named. The settings cannot
    /// be made where the port is no number or the address of the database is
    /// missing; the port is looked at first.
    pub fn from_vars(port: Option<String>, database_url: Option<String>) -> (config: Result<
        ServerConfig,
        ConfigFault,
    >)
        ensures
            match config {
                Ok(made) => {
                    &&& database_url == Some(made.database_url)
                    &&& match port {
                        Some(text) => parsed_port(text@) == Some(made.port),
                        None => made.port == DEFAULT_PORT,
                    }
                },
                Err(ConfigFault::PortNotANumber) => port is Some && parsed_port(port->0@) is None,
                Err(ConfigFault::DatabaseUrlMissing) => database_url is None && (port is Some
                    ==> parsed_port(port->0@) is Some),
            },
    {
        let port = match port {
            Some(text) => match parse_port(text.as_str()) {
                Some(port) => port,
                None => {
                    return Err(ConfigFault::PortNotANumber);
                },
            },
            None => DEFAULT_PORT,
        };
        match database_url {
            Some(database_url) => Ok(ServerConfig { port, database_url }),
            None => Err(ConfigFault::DatabaseUrlMissing),
        }
    }
}

/// The text of a variable, or the empty text where the variable is not set.
pub open spec fn text_or_empty(value: Option<String>) -> Seq<char> {
    match value {
        Some(text) => text@,
        None => Seq::empty(),
    }
}

/// The value of a variable, or the empty text where the variable is not
/// set.
fn or_empty(value: Option<String>) -> (text: String)
    ensures
        text@ == text_or_empty(value),
{
    match value {
        Some(text) => text,
        None => String::new(),
    }
}

impl AuthConfig {
    /// The settings that the values of the variables `PRODUCTION`,
    /// `GITHUB_CLIENT_ID`, `GITHUB_CLIENT_SECRET`, `SESSION_SECRET_KEY` and
    /// `GITHUB_TEST_URL` give, `None` standing for a variable that is not
    /// set. Production is on exactly when its variable reads `true`; a
    /// missing identifier or secret is empty.
    pub fn from_vars(
        production: Option<String>,
        github_client_id: Option<String>,
        github_client_secret: Option<String>,
        session_secret_key: Option<String>,
        github_test_url: Option<String>,
    ) -> (config: Self)
        ensures
            config.production == (production is Some && production->0@ == "true"@),
            config.github_client_id@ == text_or_empty(github_client_id),
            config.github_client_secret@ == text_or_empty(github_client_secret),
            config.session_secret_key@ == text_or_empty(session_secret_key),
            config.github_test_url == github_test_url,
    {
        let production = match production {
            Some(text) => text == "true".to_string(),
            None => false,
        };
        AuthConfig {
            production,
            github_client_id: or_empty(github_client_id),
            github_client_secret: or_empty(github_client_secret),
            session_secret_key: or_empty(session_secret_key),
            github_test_url,
        }
    }
}

impl SessionConfig {
    /// The settings that the value of the variable `SESSION_SECRET_KEY`
    /// gives; a missing key is empty.
    pub fn from_vars(secret_key: Option<String>) -> (config: Self)
        ensures
            config.secret_key@ == text_or_empty(secret_key),
    {
        SessionConfig { secret_key: or_empty(secret_key) }
    }
}

impl TokenBucketConfig {
    /// A bucket of a hundred tokens that gains one token a second.
    pub fn new() -> (config: Self)
        ensures
            config.capacity == 100,
            config.refill_rate == 1,
    {
        TokenBucketConfig { capacity: 100, refill_rate: 1 }
    }
}

} // verus!
