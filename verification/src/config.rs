//! Configuration handling: the store name and the health-check port.

use vstd::prelude::*;

use crate::errors::ConfigError;

verus! {

/// The store name used when no override is configured.
pub open spec fn default_store_name() -> Seq<char> {
    "drasi-state"@
}

/// Picks the store name: the configured override when one is present,
/// otherwise the default name.
pub fn resolve_store_name(configured: Option<String>) -> (name: String)
    ensures
        configured matches Some(v) ==> name@ == v@,
        configured is None ==> name@ == default_store_name(),
{
    match configured {
        Some(v) => v,
        None => "drasi-state".to_owned(),
    }
}

/// Parses the port text as `parse_port` does, after the missing-value check.
pub fn resolve_port(configured: Option<&String>) -> (r: Result<u16, ConfigError>)
    ensures
        configured is None ==> r == Err::<u16, ConfigError>(ConfigError::MissingPort),
        configured matches Some(t) ==> r == spec_parse_port(t@),
{
    match configured {
        None => Err(ConfigError::MissingPort),
        Some(t) => parse_port(t.as_str()),
    }
}

/// A decimal digit character.
pub open spec fn is_decimal_digit(c: char) -> bool {
    48 <= c as int <= 57
}

/// The numeric value of a decimal digit character.
pub open spec fn digit_value(c: char) -> int {
    c as int - 48
}

/// The digit portion of a port text: everything after an optional leading
/// plus sign, which the standard unsigned parser also accepts.
pub open spec fn digits_of(s: Seq<char>) -> Seq<char> {
    if s.len() > 0 && s[0] == '+' {
        s.skip(1)
    } else {
        s
    }
}

/// The number denoted by a sequence of decimal digit characters,
/// most significant digit first.
pub open spec fn decimal_value(d: Seq<char>) -> int
    decreases d.len(),
{
    if d.len() == 0 {
        0
    } else {
        decimal_value(d.drop_last()) * 10 + digit_value(d.last())
    }
}

/// Whether a text is a valid port: at least one digit after the optional
/// sign, digits only, and a value that fits in 16 bits.
pub open spec fn is_port_text(s: Seq<char>) -> bool {
    let d = digits_of(s);
    &&& d.len() > 0
    &&& forall|i: int| 0 <= i < d.len() ==> is_decimal_digit(#[trigger] d[i])
    &&& decimal_value(d) <= u16::MAX
}

/// What parsing a port text yields.
pub open spec fn spec_parse_port(s: Seq<char>) -> Result<u16, ConfigError> {
    if is_port_text(s) {
        Ok(decimal_value(digits_of(s)) as u16)
    } else {
        Err(ConfigError::MalformedPort)
    }
}

proof fn lemma_decimal_value_nonneg(d: Seq<char>)
    requires
        forall|i: int| 0 <= i < d.len() ==> is_decimal_digit(#[trigger] d[i]),
    ensures
        decimal_value(d) >= 0,
    decreases d.len(),
{
    if d.len() > 0 {
        lemma_decimal_value_nonneg(d.drop_last());
    }
}

/// Extending an all-digit sequence never lowers its value, so a prefix that
/// is already too large for 16 bits makes the whole text too large.
proof fn lemma_decimal_value_prefix_le(d: Seq<char>, k: int)
    requires
        forall|i: int| 0 <= i < d.len() ==> is_decimal_digit(#[trigger] d[i]),
        0 <= k <= d.len(),
    ensures
        decimal_value(d.take(k)) <= decimal_value(d),
    decreases d.len() - k,
{
    if k < d.len() {
        lemma_decimal_value_prefix_le(d, k + 1);
        assert(d.take(k + 1).drop_last() =~= d.take(k));
        assert(d.take(k + 1).last() == d[k]);
        lemma_decimal_value_nonneg(d.take(k));
    } else {
        assert(d.take(k) =~= d);
    }
}

/// Parses a decimal unsigned 16-bit port number, accepting exactly what the
/// standard library's unsigned parser accepts: an optional leading plus sign
/// followed by one or more decimal digits whose value fits in 16 bits.
pub fn parse_port(text: &str) -> (r: Result<u16, ConfigError>)
    ensures
        r == spec_parse_port(text@),
{
    let len = text.unicode_len();
    let start: usize = if len > 0 && text.get_char(0) == '+' {
        1
    } else {
        0
    };
    proof {
        assert(digits_of(text@) =~= text@.skip(start as int));
    }
    if len == start {
        return Err(ConfigError::MalformedPort);
    }
    let ghost d = text@.skip(start as int);
    let mut value: u32 = 0;
    let mut i: usize = start;
    while i < len
        invariant
            start < len,
            start <= i <= len,
            len == text@.len(),
            d == text@.skip(start as int),
            d == digits_of(text@),
            forall|j: int| 0 <= j < i - start ==> is_decimal_digit(#[trigger] d[j]),
            value == decimal_value(d.take(i - start)),
            value <= u16::MAX,
        decreases len - i,
    {
        let c = text.get_char(i);
        let code = c as u32;
        if code < 48 || code > 57 {
            assert(!is_decimal_digit(d[i - start]));
            return Err(ConfigError::MalformedPort);
        }
        let digit = code - 48;
        proof {
            assert(d.take(i - start + 1).drop_last() =~= d.take(i - start));
            assert(d.take(i - start + 1).last() == d[i - start]);
        }
        value = value * 10 + digit;
        if value > u16::MAX as u32 {
            proof {
                if forall|j: int| 0 <= j < d.len() ==> is_decimal_digit(#[trigger] d[j]) {
                    lemma_decimal_value_prefix_le(d, i - start + 1);
                }
            }
            return Err(ConfigError::MalformedPort);
        }
        i = i + 1;
    }
    proof {
        assert(d.take(i - start) =~= d);
    }
    Ok(value as u16)
}

/// The character for one decimal digit value.
pub open spec fn digit_char(d: int) -> char {
    if d == 0 {
        '0'
    } else if d == 1 {
        '1'
    } else if d == 2 {
        '2'
    } else if d == 3 {
        '3'
    } else if d == 4 {
        '4'
    } else if d == 5 {
        '5'
    } else if d == 6 {
        '6'
    } else if d == 7 {
        '7'
    } else if d == 8 {
        '8'
    } else {
        '9'
    }
}

/// The decimal numeral of `n`: most significant digit first, no sign, no
/// leading zero except for zero itself.
pub open spec fn decimal_chars(n: int) -> Seq<char>
    recommends
        n >= 0,
    decreases n,
{
    if n < 10 {
        seq![digit_char(n)]
    } else {
        decimal_chars(n / 10).push(digit_char(n % 10))
    }
}

fn digit_str(d: u16) -> (r: &'static str)
    requires
        d < 10,
    ensures
        r@ == seq![digit_char(d as int)],
{
    proof {
        reveal_strlit("0");
        reveal_strlit("1");
        reveal_strlit("2");
        reveal_strlit("3");
        reveal_strlit("4");
        reveal_strlit("5");
        reveal_strlit("6");
        reveal_strlit("7");
        reveal_strlit("8");
        reveal_strlit("9");
    }
    let r = match d {
        0 => "0",
        1 => "1",
        2 => "2",
        3 => "3",
        4 => "4",
        5 => "5",
        6 => "6",
        7 => "7",
        8 => "8",
        _ => "9",
    };
    proof {
        assert(r@ =~= seq![digit_char(d as int)]);
    }
    r
}

/// Renders `n` as its decimal numeral.
pub fn render_u16(n: u16) -> (r: String)
    ensures
        r@ == decimal_chars(n as int),
    decreases n,
{
    if n < 10 {
        digit_str(n).to_owned()
    } else {
        let mut s = render_u16(n / 10);
        s.append(digit_str(n % 10));
        proof {
            assert(s@ =~= decimal_chars(n as int));
        }
        s
    }
}

/// The URL of the sidecar's outbound health endpoint on the local host,
/// for a given port.
pub open spec fn health_url_chars(port: int) -> Seq<char> {
    "http://localhost:"@ + decimal_chars(port) + "/v1.0/healthz/outbound"@
}

/// Builds the health endpoint URL the readiness probe polls.
pub fn health_url(port: u16) -> (r: String)
    ensures
        r@ == health_url_chars(port as int),
{
    let mut s = String::from_str("http://localhost:");
    let digits = render_u16(port);
    s.append(digits.as_str());
    s.append("/v1.0/healthz/outbound");
    proof {
        assert(s@ =~= health_url_chars(port as int));
    }
    s
}

proof fn lemma_decimal_chars_digits(n: int)
    requires
        n >= 0,
    ensures
        decimal_chars(n).len() > 0,
        forall|i: int|
            0 <= i < decimal_chars(n).len() ==> is_decimal_digit(#[trigger] decimal_chars(n)[i]),
    decreases n,
{
    if n >= 10 {
        lemma_decimal_chars_digits(n / 10);
    }
}

proof fn lemma_decimal_value_of_chars(n: int)
    requires
        n >= 0,
    ensures
        decimal_value(decimal_chars(n)) == n,
    decreases n,
{
    if n < 10 {
        assert(decimal_chars(n).drop_last() =~= Seq::<char>::empty());
        assert(decimal_chars(n).last() == digit_char(n));
        assert(digit_value(digit_char(n)) == n);
        assert(decimal_value(Seq::<char>::empty()) == 0);
        assert(decimal_value(decimal_chars(n)) == decimal_value(decimal_chars(n).drop_last()) * 10
            + digit_value(decimal_chars(n).last()));
    } else {
        lemma_decimal_value_of_chars(n / 10);
        assert(decimal_chars(n).drop_last() =~= decimal_chars(n / 10));
        assert(decimal_chars(n).last() == digit_char(n % 10));
        assert(digit_value(digit_char(n % 10)) == n % 10);
        assert(decimal_value(decimal_chars(n)) == decimal_value(decimal_chars(n).drop_last()) * 10
            + digit_value(decimal_chars(n).last()));
    }
}

/// Rendering a port as text and parsing the text back yields the same port:
/// the numeral is a valid port text and denotes the number it was made from.
pub proof fn lemma_render_parse_roundtrip(n: int)
    requires
        0 <= n <= u16::MAX,
    ensures
        is_port_text(decimal_chars(n)),
        spec_parse_port(decimal_chars(n)) == Ok::<u16, ConfigError>(n as u16),
{
    lemma_decimal_chars_digits(n);
    lemma_decimal_value_of_chars(n);
    assert(decimal_chars(n)[0] != '+');
    assert(digits_of(decimal_chars(n)) == decimal_chars(n));
}

} // verus!
