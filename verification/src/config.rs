//! Database connection settings, taken from optional environment values with
//! defaults, and the decimal parsing of the port number.

use vstd::prelude::*;
use vstd::utf8::encode_utf8;

verus! {

/// The port number used when none is given.
pub const DEFAULT_PORT: u16 = 3306;

/// Settings for connecting to the MySQL database.
pub struct DbConfig {
    pub hostname: String,
    pub port: u16,
    pub username: String,
    pub password: String,
    pub database: String,
}

/// An ASCII decimal digit, as a byte.
pub open spec fn is_digit_byte(b: u8) -> bool {
    48 <= b <= 57
}

/// Every byte is an ASCII decimal digit.
pub open spec fn all_digit_bytes(s: Seq<u8>) -> bool {
    forall|i: int| 0 <= i < s.len() ==> is_digit_byte(#[trigger] s[i])
}

/// The number that a string of decimal digits writes, most significant first.
pub open spec fn decimal_value(s: Seq<u8>) -> nat
    decreases s.len(),
{
    if s.len() == 0 {
        0
    } else {
        decimal_value(s.drop_last()) * 10 + (s.last() - 48) as nat
    }
}

/// The digits of a port text: the text without one leading `+`, if it has one.
pub open spec fn unsigned_digits(s: Seq<u8>) -> Seq<u8> {
    if s.len() > 0 && s[0] == 43 {
        s.drop_first()
    } else {
        s
    }
}

/// What `str::parse::<u16>` gives for the UTF-8 bytes of a text: an optional
/// `+`, then at least one decimal digit and nothing else, with a value that
/// fits in 16 bits.
pub open spec fn parse_u16_spec(s: Seq<u8>) -> Option<u16> {
    let digits = unsigned_digits(s);
    if digits.len() > 0 && all_digit_bytes(digits) && decimal_value(digits) <= u16::MAX {
        Some(decimal_value(digits) as u16)
    } else {
        None
    }
}

/// A longer run of digits never writes a smaller number than its prefix.
pub proof fn lemma_decimal_value_prefix(s: Seq<u8>, k: int)
    requires
        0 <= k <= s.len(),
        all_digit_bytes(s),
    ensures
        decimal_value(s.take(k)) <= decimal_value(s),
    decreases s.len() - k,
{
    if k < s.len() {
        lemma_decimal_value_prefix(s, k + 1);
        assert(s.take(k + 1).drop_last() =~= s.take(k));
        assert(s.take(k + 1).last() == s[k]);
    } else {
        assert(s.take(k) =~= s);
    }
}

/// The decimal digits of `n` as ASCII bytes, most significant first, without
/// leading zeros (`0` is written `0`).
pub open spec fn decimal_bytes(n: nat) -> Seq<u8>
    decreases n,
{
    if n < 10 {
        seq![(48 + n) as u8]
    } else {
        decimal_bytes(n / 10).push((48 + n % 10) as u8)
    }
}

/// The decimal digits of `n` are all digit bytes and write `n`.
pub proof fn lemma_decimal_bytes_value(n: nat)
    ensures
        decimal_bytes(n).len() >= 1,
        all_digit_bytes(decimal_bytes(n)),
        decimal_value(decimal_bytes(n)) == n,
        decimal_bytes(n)[0] != 43,
    decreases n,
{
    if n >= 10 {
        lemma_decimal_bytes_value(n / 10);
        let s = decimal_bytes(n / 10);
        let t = decimal_bytes(n);
        assert(t.drop_last() =~= s);
        assert(t[0] == s[0]);
        assert(n % 10 < 10);
        assert(t.last() as int == 48 + n % 10);
        assert(decimal_value(t) == decimal_value(s) * 10 + (n % 10) as nat);
        assert(n == (n / 10) * 10 + n % 10) by (nonlinear_arith);
    } else {
        let t = decimal_bytes(n);
        assert(t.drop_last() =~= Seq::<u8>::empty());
        assert(decimal_value(t.drop_last()) == 0);
        assert(t.last() as int == 48 + n);
    }
}

/// Every port number written in decimal reads back as itself: the text of the
/// digits of any `n` in `0..=65535` parses to `n`.
pub proof fn lemma_port_round_trip(n: u16)
    ensures
        parse_u16_spec(decimal_bytes(n as nat)) == Some(n),
{
    lemma_decimal_bytes_value(n as nat);
    assert(unsigned_digits(decimal_bytes(n as nat)) == decimal_bytes(n as nat));
}

/// Parses a port number as `str::parse::<u16>` does.
pub fn parse_port(text: &str) -> (r: Option<u16>)
    ensures
        r == parse_u16_spec(encode_utf8(text@)),
{
    let bytes = text.as_bytes();
    let n = bytes.len();
    let ghost s = bytes@;
    let start: usize = if n > 0 && bytes[0] == 43u8 { 1 } else { 0 };
    let ghost digits = unsigned_digits(s);
    assert(digits =~= s.subrange(start as int, n as int));
    if start == n {
        return None;
    }
    let mut value: u32 = 0;
    let mut i: usize = start;
    while i < n
        invariant
            bytes@ == s,
            s == encode_utf8(text@),
            digits == unsigned_digits(s),
            n == s.len(),
            start <= i <= n,
            digits =~= s.subrange(start as int, n as int),
            all_digit_bytes(digits.take(i - start)),
            value as nat == decimal_value(digits.take(i - start)),
            value <= u16::MAX,
        decreases n - i,
    {
        let b = bytes[i];
        assert(digits.take(i - start + 1).drop_last() =~= digits.take(i - start));
        assert(digits.take(i - start + 1).last() == b);
        if b < 48u8 || b > 57u8 {
            assert(digits[i - start] == b);
            assert(!all_digit_bytes(digits));
            assert(s == encode_utf8(text@));
            return None;
        }
        let next = value * 10 + (b - 48u8) as u32;
        if next > 65535 {
            proof {
                assert(all_digit_bytes(digits.take(i - start + 1)));
                if all_digit_bytes(digits) {
                    lemma_decimal_value_prefix(digits, i - start + 1);
                    assert(decimal_value(digits) > u16::MAX);
                }
                assert(s == encode_utf8(text@));
            }
            return None;
        }
        value = next;
        i = i + 1;
    }
    assert(digits.take(n - start) =~= digits);
    Some(value as u16)
}

/// The text of the environment value, or the default when it is absent.
pub open spec fn or_default(value: Option<Seq<char>>, default: Seq<char>) -> Seq<char> {
    match value {
        Some(v) => v,
        None => default,
    }
}

/// An environment value as a plain text, if it was set.
pub open spec fn opt_text(value: Option<String>) -> Option<Seq<char>> {
    match value {
        Some(v) => Some(v@),
        None => None,
    }
}

/// The port that the optional port text gives: 3306 when it is absent, and
/// `None` when it is not a 16-bit number.
pub open spec fn port_spec(port: Option<Seq<char>>) -> Option<u16> {
    match port {
        Some(p) => parse_u16_spec(encode_utf8(p)),
        None => Some(DEFAULT_PORT),
    }
}

/// The message of the error that a bad port text gives.
pub open spec fn bad_port_message() -> Seq<char> {
    "DB_PORT must be a number"@
}

fn text_or(value: Option<String>, default: &str) -> (r: String)
    ensures
        r@ == or_default(opt_text(value), default@),
{
    match value {
        Some(v) => v,
        None => default.to_owned(),
    }
}

/// The connection settings from the five optional environment values
/// (host, port, user name, password, database), each with its default:
/// `localhost`, 3306, `root`, `password` and `world`. A port text that is not
/// a 16-bit number is refused with the message `DB_PORT must be a number`.
pub fn get_options(
    hostname: Option<String>,
    port: Option<String>,
    username: Option<String>,
    password: Option<String>,
    database: Option<String>,
) -> (r: Result<DbConfig, String>)
    ensures
        port_spec(opt_text(port)) is None <==> r is Err,
        r matches Err(e) ==> e@ == bad_port_message(),
        r matches Ok(c) ==> {
            &&& Some(c.port) == port_spec(opt_text(port))
            &&& c.hostname@ == or_default(opt_text(hostname), "localhost"@)
            &&& c.username@ == or_default(opt_text(username), "root"@)
            &&& c.password@ == or_default(opt_text(password), "password"@)
            &&& c.database@ == or_default(opt_text(database), "world"@)
        },
{
    let hostname = text_or(hostname, "localhost");
    let port = match port {
        Some(p) => match parse_port(p.as_str()) {
            Some(n) => n,
            None => return Err("DB_PORT must be a number".to_owned()),
        },
        None => DEFAULT_PORT,
    };
    let username = text_or(username, "root");
    let password = text_or(password, "password");
    let database = text_or(database, "world");
    Ok(DbConfig { hostname, port, username, password, database })
}

} // verus!
