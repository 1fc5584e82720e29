use vstd::prelude::*;
use crate::text::{all_digits, dec_nat, digits_value, is_digit, lemma_dec_nat_digits, push_decimal};

verus! {

/// Port the server listens on when `APP_PORT` is absent or unusable.
pub const DEFAULT_APP_PORT: u16 = 8090;

/// Base URL of the language-model server when `OLLAMA_BASE_URL` is absent.
pub open spec fn default_ollama_base_url() -> Seq<char> {
    "http://localhost:11434/v1"@
}

/// Server configuration, read from the environment.
pub struct Config {
    pub database_url: String,
    pub ollama_base_url: String,
    pub jwt_secret: String,
    pub app_port: u16,
}

/// A required environment variable is missing; holds its name.
#[derive(Debug)]
pub struct MissingVariable {
    pub key: String,
}

/// The text after an optional leading `+`.
pub open spec fn unsigned_digits(s: Seq<char>) -> Seq<char> {
    if s.len() > 0 && s[0] == '+' {
        s.drop_first()
    } else {
        s
    }
}

/// What parsing a text as a `u16` gives: an optional leading `+`, then at least
/// one decimal digit and nothing else, with a value that fits in 16 bits.
pub open spec fn parse_u16_spec(s: Seq<char>) -> Option<u16> {
    let digits = unsigned_digits(s);
    if digits.len() > 0 && all_digits(digits) && digits_value(digits) <= 65535 {
        Some(digits_value(digits) as u16)
    } else {
        None
    }
}

/// The port a configuration gets from the `APP_PORT` value: the parsed port, or
/// the default when absent or unparsable.
pub open spec fn port_from(v: Option<Seq<char>>) -> u16 {
    match v {
        Some(t) => match parse_u16_spec(t) {
            Some(p) => p,
            None => DEFAULT_APP_PORT,
        },
        None => DEFAULT_APP_PORT,
    }
}

/// The configured port is the parsed `APP_PORT` whenever it parses as a
/// `u16`, whatever its value; only an absent or unparsable value gives the
/// default. In particular the decimal text of any port configures that port.
pub proof fn lemma_port_is_parsed_value(v: Seq<char>, p: u16)
    ensures
        parse_u16_spec(v) == Some(p) ==> port_from(Some(v)) == p,
        parse_u16_spec(v) is None ==> port_from(Some(v)) == DEFAULT_APP_PORT,
        port_from(None) == DEFAULT_APP_PORT,
        port_from(Some(dec_nat(p as nat))) == p,
{
    lemma_dec_nat_digits(p as nat);
    let d = dec_nat(p as nat);
    assert(is_digit(d[0]));
    assert(unsigned_digits(d) == d);
}

fn min_cap(v: u32) -> (r: u32)
    ensures
        r == if v < 65536 { v } else { 65536 },
{
    if v < 65536 { v } else { 65536 }
}

/// Parses a text as a `u16` the way the standard library does (decimal, an
/// optional leading `+`, no sign otherwise, no surrounding space).
pub fn parse_u16(s: &str) -> (r: Option<u16>)
    ensures
        r == parse_u16_spec(s@),
{
    let n = s.unicode_len();
    let mut start: usize = 0;
    if n > 0 && s.get_char(0) == '+' {
        start = 1;
    }
    let ghost digits = unsigned_digits(s@);
    if start == n {
        return None;
    }
    let mut acc: u32 = 0;
    let mut i = start;
    while i < n
        invariant
            n == s@.len(),
            start <= i <= n,
            start == 0 || start == 1,
            digits == unsigned_digits(s@),
            digits =~= s@.subrange(start as int, n as int),
            forall|k: int| start <= k < i ==> is_digit(#[trigger] s@[k]),
            acc == if digits_value(s@.subrange(start as int, i as int)) < 65536 {
                digits_value(s@.subrange(start as int, i as int))
            } else {
                65536
            },
        decreases n - i,
    {
        let c = s.get_char(i);
        if !(c >= '0' && c <= '9') {
            proof {
                let k = i - start;
                assert(digits[k] == c);
                assert(!is_digit(digits[k]));
                assert(!all_digits(digits));
            }
            return None;
        }
        let d: u32 = (c as u32) - 48;
        proof {
            assert(s@.subrange(start as int, i + 1).drop_last() =~= s@.subrange(start as int, i as int));
        }
        acc = min_cap(acc * 10 + d);
        i = i + 1;
    }
    assert(s@.subrange(start as int, n as int) =~= digits);
    if acc < 65536 {
        Some(acc as u16)
    } else {
        None
    }
}

/// The message of a missing-variable error.
pub open spec fn missing_text(key: Seq<char>) -> Seq<char> {
    "variable d'environnement manquante: "@ + key
}

impl MissingVariable {
    pub fn message(&self) -> (m: String)
        ensures
            m@ == missing_text(self.key@),
    {
        let mut m = String::from_str("variable d'environnement manquante: ");
        m.append(self.key.as_str());
        m
    }
}

/// The `Debug` text of a string: the string quoted, with its special
/// characters escaped.
pub uninterp spec fn debug_str(s: Seq<char>) -> Seq<char>;

/// Renders a string the way `Debug` does (`format!("{:?}", ..)`). Claimed: the
/// result is the named function of the text.
#[verifier::external_body]
fn debug_quote(s: &str) -> (r: String)
    ensures
        r@ == debug_str(s@),
{
    format!("{:?}", s)
}

/// The debug text of a configuration with its secrets (the database URL, which
/// holds the database password, and the JWT secret) masked as `***`.
pub open spec fn redacted_text(c: Config) -> Seq<char> {
    "Config { database_url: \"***\", ollama_base_url: "@ + debug_str(c.ollama_base_url@)
        + ", jwt_secret: \"***\", app_port: "@ + dec_nat(c.app_port as nat) + " }"@
}

impl Config {
    /// The debug text of the configuration, secrets masked.
    pub fn redacted_debug(&self) -> (s: String)
        ensures
            s@ == redacted_text(*self),
    {
        let mut s = String::from_str("Config { database_url: \"***\", ollama_base_url: ");
        let url = debug_quote(self.ollama_base_url.as_str());
        s.append(url.as_str());
        s.append(", jwt_secret: \"***\", app_port: ");
        push_decimal(&mut s, self.app_port as u64);
        s.append(" }");
        s
    }

    /// Builds the configuration from the values of `DATABASE_URL`,
    /// `OLLAMA_BASE_URL`, `JWT_SECRET` and `APP_PORT` (`None` when unset).
    /// `DATABASE_URL` and `JWT_SECRET` are required, checked in that order;
    /// `OLLAMA_BASE_URL` defaults to the local server; `APP_PORT` defaults to
    /// 8090 when absent or not a valid port.
    pub fn from_vars(
        database_url: Option<String>,
        ollama_base_url: Option<String>,
        jwt_secret: Option<String>,
        app_port: Option<String>,
    ) -> (r: Result<Config, MissingVariable>)
        ensures
            database_url is None ==> (r matches Err(m) && m.key@ == "DATABASE_URL"@),
            database_url is Some && jwt_secret is None ==> (r matches Err(m) && m.key@ == "JWT_SECRET"@),
            database_url is Some && jwt_secret is Some ==> (r matches Ok(c) && {
                &&& c.database_url@ == database_url->0@
                &&& c.jwt_secret@ == jwt_secret->0@
                &&& c.ollama_base_url@ == match ollama_base_url {
                    Some(u) => u@,
                    None => default_ollama_base_url(),
                }
                &&& c.app_port == port_from(match app_port {
                    Some(p) => Some(p@),
                    None => None,
                })
            }),
            database_url is Some && jwt_secret is Some && (app_port matches Some(t) && parse_u16_spec(t@) matches Some(
                p,
            )) ==> (r matches Ok(c) && c.app_port == parse_u16_spec(app_port->0@)->0),
            database_url is Some && jwt_secret is Some && (app_port is None || parse_u16_spec(app_port->0@) is None)
                ==> (r matches Ok(c) && c.app_port == 8090),
    {
        let database_url = match database_url {
            Some(v) => v,
            None => return Err(MissingVariable { key: String::from_str("DATABASE_URL") }),
        };
        let ollama_base_url = match ollama_base_url {
            Some(v) => v,
            None => String::from_str("http://localhost:11434/v1"),
        };
        let jwt_secret = match jwt_secret {
            Some(v) => v,
            None => return Err(MissingVariable { key: String::from_str("JWT_SECRET") }),
        };
        let app_port = match app_port {
            Some(p) => match parse_u16(p.as_str()) {
                Some(port) => port,
                None => DEFAULT_APP_PORT,
            },
            None => DEFAULT_APP_PORT,
        };
        Ok(Config { database_url, ollama_base_url, jwt_secret, app_port })
    }
}

} // verus!
