use vstd::prelude::*;
use vstd::string::*;

verus! {

/// The settings the server starts with.
pub struct Environment {
    pub mongodb_uri: String,
    /// The bypass secret: a credential admitted without the store, for internal callers.
    pub super_key: String,
    pub port: u16,
    pub address: String,
}

/// Why the settings could not be read.
#[derive(Clone, Copy, Debug, PartialEq, Eq)]
pub enum EnvError {
    /// No bypass secret is configured.
    MissingSuperKey,
    /// The port setting is not a decimal number from 0 to 65535.
    InvalidPort,
}

/// The value bound to `key`; where a key is bound more than once, the last binding wins.
pub open spec fn lookup(vars: Seq<(String, String)>, key: Seq<char>) -> Option<Seq<char>>
    decreases vars.len(),
{
    if vars.len() == 0 {
        None
    } else if vars.last().0@ == key {
        Some(vars.last().1@)
    } else {
        lookup(vars.drop_last(), key)
    }
}

/// The value bound to `key`, or `default` where there is none.
pub open spec fn lookup_or(vars: Seq<(String, String)>, key: Seq<char>, default: Seq<char>) -> Seq<
    char,
> {
    match lookup(vars, key) {
        Some(v) => v,
        None => default,
    }
}

/// An ASCII decimal digit.
pub open spec fn is_digit(c: char) -> bool {
    '0' <= c && c <= '9'
}

/// The number written by a string of decimal digits.
pub open spec fn digits_value(s: Seq<char>) -> int
    decreases s.len(),
{
    if s.len() == 0 {
        0
    } else {
        digits_value(s.drop_last()) * 10 + (s.last() as int - '0' as int)
    }
}

/// Every character is a decimal digit.
pub open spec fn all_digits(s: Seq<char>) -> bool {
    forall|i: int| 0 <= i < s.len() ==> is_digit(#[trigger] s[i])
}

/// The digits of a port setting: the text after an optional leading `+`.
pub open spec fn port_digits(s: Seq<char>) -> Seq<char> {
    if s.len() > 0 && s[0] == '+' {
        s.subrange(1, s.len() as int)
    } else {
        s
    }
}

/// The port that a setting names: one or more decimal digits after an optional
/// `+`, with a value that fits in 16 bits.
pub open spec fn port_value(s: Seq<char>) -> Option<u16> {
    let d = port_digits(s);
    if d.len() > 0 && all_digits(d) && digits_value(d) <= u16::MAX {
        Some(digits_value(d) as u16)
    } else {
        None
    }
}

proof fn lemma_digits_value_grows(s: Seq<char>, k: int)
    requires
        0 <= k <= s.len(),
        forall|i: int| 0 <= i < s.len() ==> is_digit(#[trigger] s[i]),
    ensures
        digits_value(s.subrange(0, k)) <= digits_value(s),
        0 <= digits_value(s.subrange(0, k)),
    decreases s.len() - k,
{
    if k < s.len() {
        lemma_digits_value_grows(s, k + 1);
        let p = s.subrange(0, k + 1);
        assert(p.drop_last() =~= s.subrange(0, k));
        lemma_digits_value_nonneg(s.subrange(0, k));
    } else {
        assert(s.subrange(0, k) =~= s);
        lemma_digits_value_nonneg(s);
    }
}

proof fn lemma_digits_value_nonneg(s: Seq<char>)
    requires
        forall|i: int| 0 <= i < s.len() ==> is_digit(#[trigger] s[i]),
    ensures
        0 <= digits_value(s),
    decreases s.len(),
{
    if s.len() > 0 {
        lemma_digits_value_nonneg(s.drop_last());
    }
}

/// Reads a port setting as `u16` text reads: an optional `+`, then decimal digits.
pub fn parse_port(s: &String) -> (r: Option<u16>)
    ensures
        r == port_value(s@),
{
    let text = s.as_str();
    let n = text.unicode_len();
    let mut start: usize = 0;
    if n > 0 && text.get_char(0) == '+' {
        start = 1;
    }
    let ghost d = port_digits(s@);
    assert(d =~= s@.subrange(start as int, n as int));
    if start == n {
        return None;
    }
    let mut value: u32 = 0;
    let mut i: usize = start;
    while i < n
        invariant
            start <= i <= n,
            n == s@.len(),
            d == s@.subrange(start as int, n as int),
            d == port_digits(s@),
            text@ == s@,
            forall|j: int| start <= j < i ==> is_digit(#[trigger] s@[j]),
            value as int == digits_value(s@.subrange(start as int, i as int)),
            value <= u16::MAX,
        decreases n - i,
    {
        let c = text.get_char(i);
        if c < '0' || c > '9' {
            assert(!is_digit(d[i - start]));
            assert(!all_digits(d));
            return None;
        }
        let ghost prefix = s@.subrange(start as int, i as int + 1);
        assert(prefix.drop_last() =~= s@.subrange(start as int, i as int));
        let digit: u32 = (c as u32) - ('0' as u32);
        let next: u32 = value * 10 + digit;
        if next > 65535 {
            proof {
                if all_digits(d) {
                    lemma_digits_value_grows(d, i + 1 - start);
                    assert(d.subrange(0, i + 1 - start) =~= prefix);
                }
                assert(port_value(s@) is None);
            }
            return None;
        }
        value = next;
        i = i + 1;
    }
    assert(s@.subrange(start as int, n as int) =~= d);
    Some(value as u16)
}

/// The value bound to `key` in `vars`; the last binding wins.
pub fn lookup_var(vars: &Vec<(String, String)>, key: &String) -> (r: Option<String>)
    ensures
        match r {
            Some(v) => lookup(vars@, key@) == Some(v@),
            None => lookup(vars@, key@) is None,
        },
{
    let mut found: Option<String> = None;
    let mut i: usize = 0;
    while i < vars.len()
        invariant
            i <= vars@.len(),
            match found {
                Some(v) => lookup(vars@.subrange(0, i as int), key@) == Some(v@),
                None => lookup(vars@.subrange(0, i as int), key@) is None,
            },
        decreases vars@.len() - i,
    {
        let ghost next = vars@.subrange(0, i as int + 1);
        assert(next.drop_last() =~= vars@.subrange(0, i as int));
        if vars[i].0 == *key {
            found = Some(vars[i].1.clone());
        }
        i = i + 1;
    }
    assert(vars@.subrange(0, vars@.len() as int) =~= vars@);
    found
}

/// The store's address where none is configured.
pub const DEFAULT_MONGODB_URI: &'static str = "mongodb://localhost:27017";

/// The listening port where none is configured.
pub const DEFAULT_PORT: u16 = 8080;

/// The listening address where none is configured.
pub const DEFAULT_ADDRESS: &'static str = "127.0.0.1";

/// The settings named by the bindings `vars`: `SUPER_KEY` is required,
/// `MONGODB_URI`, `PORT` and `ADDRESS` fall back to their defaults.
pub fn env(vars: &Vec<(String, String)>) -> (r: Result<Environment, EnvError>)
    ensures
        lookup(vars@, "SUPER_KEY"@) is None ==> r == Err::<Environment, EnvError>(
            EnvError::MissingSuperKey,
        ),
        lookup(vars@, "SUPER_KEY"@) is Some ==> match lookup(vars@, "PORT"@) {
            Some(p) if port_value(p) is None => r == Err::<Environment, EnvError>(
                EnvError::InvalidPort,
            ),
            _ => r matches Ok(e) && {
                &&& Some(e.super_key@) == lookup(vars@, "SUPER_KEY"@)
                &&& e.mongodb_uri@ == lookup_or(vars@, "MONGODB_URI"@, DEFAULT_MONGODB_URI@)
                &&& e.address@ == lookup_or(vars@, "ADDRESS"@, DEFAULT_ADDRESS@)
                &&& e.port == match lookup(vars@, "PORT"@) {
                    Some(p) => port_value(p)->0,
                    None => DEFAULT_PORT,
                }
            },
        },
{
    let mongodb_uri = match lookup_var(vars, &String::from_str("MONGODB_URI")) {
        Some(uri) => uri,
        None => String::from_str(DEFAULT_MONGODB_URI),
    };
    let super_key = match lookup_var(vars, &String::from_str("SUPER_KEY")) {
        Some(key) => key,
        None => return Err(EnvError::MissingSuperKey),
    };
    let port = match lookup_var(vars, &String::from_str("PORT")) {
        Some(p) => match parse_port(&p) {
            Some(v) => v,
            None => return Err(EnvError::InvalidPort),
        },
        None => DEFAULT_PORT,
    };
    let address = match lookup_var(vars, &String::from_str("ADDRESS")) {
        Some(a) => a,
        None => String::from_str(DEFAULT_ADDRESS),
    };
    Ok(Environment { mongodb_uri, super_key, port, address })
}

} // verus!
