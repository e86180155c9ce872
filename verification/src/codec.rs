use vstd::prelude::*;
use base64::Engine;

verus! {

/// A hexadecimal digit, lower case (`0`-`9`, `a`-`f`), for `0 <= d < 16`.
pub open spec fn hex_lower(d: int) -> char {
    if d < 10 {
        (48 + d) as char
    } else {
        (97 + d - 10) as char
    }
}

/// A hexadecimal digit, upper case (`0`-`9`, `A`-`F`), for `0 <= d < 16`.
pub open spec fn hex_upper(d: int) -> char {
    if d < 10 {
        (48 + d) as char
    } else {
        (65 + d - 10) as char
    }
}

/// How one character stands inside a JSON string literal: `"` and `\` are
/// escaped with a backslash, the control characters below U+0020 by their short
/// escape where JSON has one and by `\u00xx` otherwise; every other character
/// stands for itself.
pub open spec fn json_escape_char(c: char) -> Seq<char> {
    if c == '"' {
        seq!['\\', '"']
    } else if c == '\\' {
        seq!['\\', '\\']
    } else if c == '\u{8}' {
        seq!['\\', 'b']
    } else if c == '\t' {
        seq!['\\', 't']
    } else if c == '\n' {
        seq!['\\', 'n']
    } else if c == '\u{c}' {
        seq!['\\', 'f']
    } else if c == '\r' {
        seq!['\\', 'r']
    } else if (c as u32) < 0x20 {
        seq!['\\', 'u', '0', '0', hex_lower((c as int) / 16), hex_lower((c as int) % 16)]
    } else {
        seq![c]
    }
}

/// The escaped contents of a JSON string literal holding `s`.
pub open spec fn json_escape(s: Seq<char>) -> Seq<char>
    decreases s.len(),
{
    if s.len() == 0 {
        seq![]
    } else {
        json_escape(s.drop_last()) + json_escape_char(s.last())
    }
}

/// The JSON string literal for `s`, quotes included.
pub open spec fn json_string(s: Seq<char>) -> Seq<char> {
    seq!['"'] + json_escape(s) + seq!['"']
}

/// A byte that URL encoding leaves as it is: an ASCII letter or digit, `-`, `.`,
/// `_` or `~`.
pub open spec fn is_unreserved(b: u8) -> bool {
    ||| 48 <= b <= 57
    ||| 65 <= b <= 90
    ||| 97 <= b <= 122
    ||| b == 45
    ||| b == 46
    ||| b == 95
    ||| b == 126
}

/// How one byte stands in a URL-encoded text: itself when unreserved, else `%`
/// and its two upper-case hexadecimal digits.
pub open spec fn percent_byte(b: u8) -> Seq<char> {
    if is_unreserved(b) {
        seq![b as char]
    } else {
        seq!['%', hex_upper((b as int) / 16), hex_upper((b as int) % 16)]
    }
}

/// The URL encoding of the bytes `bs`.
pub open spec fn percent_encode(bs: Seq<u8>) -> Seq<char>
    decreases bs.len(),
{
    if bs.len() == 0 {
        seq![]
    } else {
        percent_encode(bs.drop_last()) + percent_byte(bs.last())
    }
}

/// The character of the standard base64 alphabet for a six-bit value.
pub open spec fn base64_digit(v: int) -> char {
    if v < 26 {
        (65 + v) as char
    } else if v < 52 {
        (97 + v - 26) as char
    } else if v < 62 {
        (48 + v - 52) as char
    } else if v == 62 {
        '+'
    } else {
        '/'
    }
}

/// Standard base64 (RFC 4648 alphabet, `=` padding) of the bytes `b`: each
/// group of three bytes gives four characters, a last group of one or two bytes
/// gives four characters ending in `==` or `=`.
pub open spec fn base64_standard(b: Seq<u8>) -> Seq<char>
    decreases b.len(),
{
    if b.len() == 0 {
        seq![]
    } else if b.len() == 1 {
        seq![base64_digit((b[0] as int) / 4), base64_digit(((b[0] as int) % 4) * 16), '=', '=']
    } else if b.len() == 2 {
        seq![
            base64_digit((b[0] as int) / 4),
            base64_digit(((b[0] as int) % 4) * 16 + (b[1] as int) / 16),
            base64_digit(((b[1] as int) % 16) * 4),
            '=',
        ]
    } else {
        seq![
            base64_digit((b[0] as int) / 4),
            base64_digit(((b[0] as int) % 4) * 16 + (b[1] as int) / 16),
            base64_digit(((b[1] as int) % 16) * 4 + (b[2] as int) / 64),
            base64_digit((b[2] as int) % 64),
        ] + base64_standard(b.skip(3))
    }
}

/// A character that can stand in a URL query value without ending it: an ASCII
/// letter or digit, `-`, `.`, `_`, `~`, or the `%` that starts an escape.
pub open spec fn is_url_safe(c: char) -> bool {
    let n = c as u32;
    ||| 48 <= n <= 57
    ||| 65 <= n <= 90
    ||| 97 <= n <= 122
    ||| n == 45
    ||| n == 46
    ||| n == 95
    ||| n == 126
    ||| n == 37
}

proof fn lemma_percent_byte_safe(b: u8)
    ensures
        forall|j: int| 0 <= j < percent_byte(b).len() ==> is_url_safe(#[trigger] percent_byte(b)[j]),
{
    if !is_unreserved(b) {
        let hi = (b as int) / 16;
        let lo = (b as int) % 16;
        assert(is_url_safe(hex_upper(hi)));
        assert(is_url_safe(hex_upper(lo)));
        assert(percent_byte(b) == seq!['%', hex_upper(hi), hex_upper(lo)]);
    }
}

/// URL encoding leaves nothing that could end a query value or start another
/// one: every character of the result is a letter, a digit, `-`, `.`, `_`,
/// `~` or `%`.
pub proof fn law_url_encoding_is_url_safe(bs: Seq<u8>)
    ensures
        forall|j: int|
            0 <= j < percent_encode(bs).len() ==> is_url_safe(#[trigger] percent_encode(bs)[j]),
    decreases bs.len(),
{
    if bs.len() > 0 {
        law_url_encoding_is_url_safe(bs.drop_last());
        lemma_percent_byte_safe(bs.last());
        let a = percent_encode(bs.drop_last());
        let b = percent_byte(bs.last());
        assert(percent_encode(bs) == a + b);
        assert forall|j: int| 0 <= j < (a + b).len() implies is_url_safe(#[trigger] (a + b)[j]) by {
            if j < a.len() {
                assert((a + b)[j] == a[j]);
            } else {
                assert((a + b)[j] == b[j - a.len()]);
            }
        }
    }
}

/// Base64 turns every started group of three bytes into four characters.
pub proof fn law_base64_length(b: Seq<u8>)
    ensures
        base64_standard(b).len() == 4 * ((b.len() + 2) / 3),
    decreases b.len(),
{
    if b.len() > 2 {
        law_base64_length(b.skip(3));
    }
}

proof fn lemma_escape_char_printable(c: char)
    ensures
        forall|j: int|
            0 <= j < json_escape_char(c).len() ==> (#[trigger] json_escape_char(c)[j] as u32)
                >= 0x20,
{
    let n = (c as int);
    if (c as u32) < 0x20 && c != '\u{8}' && c != '\t' && c != '\n' && c != '\u{c}' && c != '\r' {
        assert(n / 16 < 2);
        assert(json_escape_char(c) == seq![
            '\\',
            'u',
            '0',
            '0',
            hex_lower(n / 16),
            hex_lower(n % 16),
        ]);
    }
}

/// JSON string escaping leaves no control character in the text: every
/// character of an escaped string is at least U+0020.
pub proof fn law_json_escape_has_no_control_chars(s: Seq<char>)
    ensures
        forall|j: int| 0 <= j < json_escape(s).len() ==> (#[trigger] json_escape(s)[j] as u32) >= 0x20,
    decreases s.len(),
{
    if s.len() > 0 {
        law_json_escape_has_no_control_chars(s.drop_last());
        lemma_escape_char_printable(s.last());
        let a = json_escape(s.drop_last());
        let b = json_escape_char(s.last());
        assert(json_escape(s) == a + b);
        assert forall|j: int| 0 <= j < (a + b).len() implies (#[trigger] (a + b)[j] as u32) >= 0x20 by {
            if j < a.len() {
                assert((a + b)[j] == a[j]);
            } else {
                assert((a + b)[j] == b[j - a.len()]);
            }
        }
    }
}

/// The decimal digit character for `0 <= d < 10`.
pub open spec fn decimal_digit(d: int) -> char {
    (48 + d) as char
}

/// The text that an HTTP status code is shown as: its three digits, a space,
/// and the reason phrase that the HTTP standard gives it.
pub uninterp spec fn status_display(code: u16) -> Seq<char>;

/// Calls `serde_json::to_string` on a `str`: the JSON string literal of `s`,
/// quotes included, escaped as serde_json's serializer escapes (its `ESCAPE`
/// table and `write_char_escape`). Serialising a `str` into memory cannot fail.
#[verifier::external_body]
pub(crate) fn json_quote(s: &str) -> (r: String)
    ensures
        r@ == json_string(s@),
{
    match serde_json::to_string(s) {
        Ok(t) => t,
        Err(_) => String::new(),
    }
}

/// Calls `urlencoding::encode`: every byte of the UTF-8 form of `s` that is not
/// an ASCII letter, digit, `-`, `.`, `_` or `~` becomes `%` and two upper-case
/// hexadecimal digits; the others stay as they are.
#[verifier::external_body]
pub(crate) fn url_encode(s: &str) -> (r: String)
    ensures
        r@ == percent_encode(vstd::utf8::encode_utf8(s@)),
{
    urlencoding::encode(s).into_owned()
}

/// Calls `base64::engine::general_purpose::STANDARD.encode`: standard base64
/// with padding.
#[verifier::external_body]
pub(crate) fn base64_encode(bytes: &[u8]) -> (r: String)
    ensures
        r@ == base64_standard(bytes@),
{
    base64::engine::general_purpose::STANDARD.encode(bytes)
}

/// Calls `reqwest::StatusCode::from_u16` and then `to_string` (http's `Display`
/// for a status code, which writes the code, a space and the canonical reason
/// phrase, or `<unknown status code>`). `from_u16` accepts exactly 100..=999.
/// Which reason phrase follows the code is left to the name `status_display`.
#[verifier::external_body]
pub(crate) fn status_text(code: u16) -> (r: String)
    requires
        100 <= code <= 999,
    ensures
        r@ == status_display(code),
        r@.len() >= 4,
        r@.subrange(0, 4) == seq![
            decimal_digit((code as int) / 100),
            decimal_digit(((code as int) / 10) % 10),
            decimal_digit((code as int) % 10),
            ' ',
        ],
{
    match reqwest::StatusCode::from_u16(code) {
        Ok(status) => status.to_string(),
        Err(_) => String::new(),
    }
}

} // verus!
