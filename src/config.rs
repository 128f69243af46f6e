use vstd::prelude::*;
use vstd::string::*;

verus! {

/// The prefix that every credential of the upstream provider starts with.
pub const TOKEN_PREFIX: &'static str = "sk-";

/// Why the server must not start.
#[derive(Clone, Copy, Debug, PartialEq, Eq, Structural)]
pub enum ConfigError {
    MissingToken,
    /// The credential does not start with the provider's prefix.
    InvalidToken,
    MissingPort,
    /// The port is not a decimal number from 0 to 65535.
    InvalidPort,
}

/// What the server reads once at startup.
#[derive(Debug)]
pub struct Config {
    pub port: u16,
    pub token: String,
}

pub open spec fn is_digit(c: char) -> bool {
    '0' <= c && c <= '9'
}

pub open spec fn all_digits(s: Seq<char>) -> bool {
    forall|i: int| 0 <= i < s.len() ==> is_digit(#[trigger] s[i])
}

/// The number that a string of decimal digits writes.
pub open spec fn digits_value(s: Seq<char>) -> int
    decreases s.len(),
{
    if s.len() == 0 {
        0
    } else {
        digits_value(s.drop_last()) * 10 + (s.last() as int - '0' as int)
    }
}

/// The digits of a port: the text, after one leading `+` if there is one.
pub open spec fn port_digits(s: Seq<char>) -> Seq<char> {
    if s.len() > 0 && s[0] == '+' {
        s.drop_first()
    } else {
        s
    }
}

/// Text that writes a port number.
pub open spec fn valid_port(s: Seq<char>) -> bool {
    let d = port_digits(s);
    d.len() > 0 && all_digits(d) && digits_value(d) <= 65535
}

/// A string of digits writes no smaller a number than any of its prefixes.
proof fn lemma_prefix_value_le(s: Seq<char>, k: int)
    requires
        all_digits(s),
        0 <= k <= s.len(),
    ensures
        0 <= digits_value(s.subrange(0, k)) <= digits_value(s),
    decreases s.len(),
{
    if k == s.len() {
        assert(s.subrange(0, k) =~= s);
        lemma_value_nonneg(s);
    } else {
        let t = s.drop_last();
        assert(t.subrange(0, k) =~= s.subrange(0, k));
        lemma_prefix_value_le(t, k);
        assert(is_digit(s[s.len() - 1]));
    }
}

proof fn lemma_value_nonneg(s: Seq<char>)
    requires
        all_digits(s),
    ensures
        digits_value(s) >= 0,
    decreases s.len(),
{
    if s.len() > 0 {
        lemma_value_nonneg(s.drop_last());
        assert(is_digit(s[s.len() - 1]));
    }
}

/// Whether `s` starts with `p`.
pub fn starts_with(s: &str, p: &str) -> (r: bool)
    ensures
        r == p@.is_prefix_of(s@),
{
    let n = p.unicode_len();
    if n > s.unicode_len() {
        return false;
    }
    let mut i: usize = 0;
    while i < n
        invariant
            n == p@.len(),
            n <= s@.len(),
            i <= n,
            p@.subrange(0, i as int) == s@.subrange(0, i as int),
        decreases n - i,
    {
        if p.get_char(i) != s.get_char(i) {
            assert(p@[i as int] != s@[i as int]);
            return false;
        }
        assert(p@.subrange(0, i + 1) =~= p@.subrange(0, i as int).push(p@[i as int]));
        assert(s@.subrange(0, i + 1) =~= s@.subrange(0, i as int).push(s@[i as int]));
        i = i + 1;
    }
    assert(p@ =~= p@.subrange(0, n as int));
    true
}

/// Takes the credential where it carries the provider's prefix.
pub fn check_token(token: Option<String>) -> (r: Result<String, ConfigError>)
    ensures
        token is None ==> r == Err::<String, ConfigError>(ConfigError::MissingToken),
        token matches Some(t) ==> (TOKEN_PREFIX@.is_prefix_of(t@) <==> r is Ok),
        token matches Some(t) ==> (r matches Ok(v) ==> v@ == t@),
        token is Some ==> (r matches Err(e) ==> e == ConfigError::InvalidToken),
{
    match token {
        None => Err(ConfigError::MissingToken),
        Some(t) => {
            if starts_with(t.as_str(), TOKEN_PREFIX) {
                Ok(t)
            } else {
                Err(ConfigError::InvalidToken)
            }
        },
    }
}

/// The port that `text` writes: decimal digits, after at most one `+`, for a
/// number up to 65535.
pub fn parse_port(text: &str) -> (r: Result<u16, ConfigError>)
    ensures
        r is Ok <==> valid_port(text@),
        r matches Ok(p) ==> p as int == digits_value(port_digits(text@)),
        r matches Err(e) ==> e == ConfigError::InvalidPort,
{
    let len = text.unicode_len();
    let start: usize = if len > 0 && text.get_char(0) == '+' { 1 } else { 0 };
    let digits = text.substring_char(start, len);
    assert(digits@ =~= port_digits(text@));
    let n = digits.unicode_len();
    if n == 0 {
        return Err(ConfigError::InvalidPort);
    }
    let mut value: u32 = 0;
    let mut i: usize = 0;
    while i < n
        invariant
            n == digits@.len(),
            digits@ == port_digits(text@),
            i <= n,
            all_digits(digits@.subrange(0, i as int)),
            value as int == digits_value(digits@.subrange(0, i as int)),
            value <= 65535,
        decreases n - i,
    {
        let c = digits.get_char(i);
        let ghost next = digits@.subrange(0, i + 1);
        assert(next.drop_last() =~= digits@.subrange(0, i as int));
        if c < '0' || c > '9' {
            assert(!is_digit(digits@[i as int]));
            assert(!all_digits(digits@));
            return Err(ConfigError::InvalidPort);
        }
        assert(all_digits(next)) by {
            assert forall|j: int| 0 <= j < next.len() implies is_digit(#[trigger] next[j]) by {
                if j < i {
                    assert(next[j] == digits@.subrange(0, i as int)[j]);
                }
            }
        }
        let d: u32 = (c as u32) - ('0' as u32);
        value = value * 10 + d;
        assert(next.last() == c);
        assert(value as int == digits_value(next));
        if value > 65535 {
            proof {
                if all_digits(digits@) {
                    lemma_prefix_value_le(digits@, i + 1);
                }
            }
            return Err(ConfigError::InvalidPort);
        }
        i = i + 1;
    }
    assert(digits@.subrange(0, n as int) =~= digits@);
    Ok(value as u16)
}

/// A credential is present and carries the provider's prefix.
pub open spec fn token_accepted(token: Option<String>) -> bool {
    token matches Some(t) && TOKEN_PREFIX@.is_prefix_of(t@)
}

/// The startup configuration: the credential is checked first, then the port.
pub fn load_config(port: Option<String>, token: Option<String>) -> (r: Result<Config, ConfigError>)
    ensures
        token is None ==> r == Err::<Config, ConfigError>(ConfigError::MissingToken),
        token is Some && !token_accepted(token) ==> r == Err::<Config, ConfigError>(ConfigError::InvalidToken),
        token_accepted(token) && port is None ==> r == Err::<Config, ConfigError>(ConfigError::MissingPort),
        token_accepted(token) && port is Some && !valid_port(port->0@)
            ==> r == Err::<Config, ConfigError>(ConfigError::InvalidPort),
        token_accepted(token) && port is Some && valid_port(port->0@) ==> {
            &&& r is Ok
            &&& r->Ok_0.token@ == token->0@
            &&& r->Ok_0.port as int == digits_value(port_digits(port->0@))
        },
{
    let token = match check_token(token) {
        Ok(t) => t,
        Err(e) => return Err(e),
    };
    match port {
        None => Err(ConfigError::MissingPort),
        Some(p) => match parse_port(p.as_str()) {
            Ok(n) => Ok(Config { port: n, token }),
            Err(e) => Err(e),
        },
    }
}

} // verus!
