use vstd::prelude::*;

verus! {

/// Port of the control API when no usable setting is given.
pub const DEFAULT_PORT: u16 = 3003;

pub open spec fn is_decimal_digit(c: char) -> bool {
    '0' <= c && c <= '9'
}

/// The number written by a string of decimal digits.
pub open spec fn decimal_value(s: Seq<char>) -> int
    decreases s.len(),
{
    if s.len() == 0 {
        0
    } else {
        decimal_value(s.drop_last()) * 10 + (s.last() as int - '0' as int)
    }
}

/// The `u16` written in decimal by `s`: an optional `+`, then one or more
/// ASCII digits, with a value that fits in 16 bits.
pub open spec fn decimal_u16(s: Seq<char>) -> Option<u16> {
    let digits = if s.len() > 0 && s[0] == '+' {
        s.drop_first()
    } else {
        s
    };
    if digits.len() > 0 && (forall|i: int| 0 <= i < digits.len() ==> is_decimal_digit(#[trigger] digits[i]))
        && decimal_value(digits) <= u16::MAX {
        Some(decimal_value(digits) as u16)
    } else {
        None
    }
}

/// Relies on `<u16 as FromStr>::from_str`, which reads an optional `+` and
/// then decimal digits only, and fails on anything else or on overflow.
#[verifier::external_body]
fn parse_u16(s: &str) -> (r: Option<u16>)
    ensures
        r == decimal_u16(s@),
{
    s.parse::<u16>().ok()
}

/// The port of the control API, from the optional port setting: the
/// setting's value when it is a valid `u16`, the default port otherwise.
pub fn port_from_setting(setting: Option<&str>) -> (r: u16)
    ensures
        r == match setting {
            Some(s) => match decimal_u16(s@) {
                Some(p) => p,
                None => DEFAULT_PORT,
            },
            None => DEFAULT_PORT,
        },
{
    match setting {
        Some(s) => match parse_u16(s) {
            Some(p) => p,
            None => DEFAULT_PORT,
        },
        None => DEFAULT_PORT,
    }
}

pub open spec fn default_base_url() -> Seq<char> {
    "http://localhost:3001"@
}

pub open spec fn bundled_root() -> Seq<char> {
    "tauri://localhost"@
}

/// Where windows load their content from. A development build loads it
/// from the front-end server at `base_url` (a local default when unset); a
/// release build loads the bundled content.
pub fn content_root(dev_build: bool, base_url: Option<String>) -> (r: String)
    ensures
        r@ == if !dev_build {
            bundled_root()
        } else {
            match base_url {
                Some(b) => b@,
                None => default_base_url(),
            }
        },
{
    if !dev_build {
        String::from_str("tauri://localhost")
    } else {
        match base_url {
            Some(b) => b,
            None => String::from_str("http://localhost:3001"),
        }
    }
}

} // verus!
