//! Text rendering shared by the rest of the crate: decimal numbers,
//! whitespace trimming, lower-casing and JSON string quoting.
use vstd::prelude::*;
use vstd::utf8::*;
use vstd::string::*;
use vstd::arithmetic::power::{pow, lemma_pow_positive};
use vstd::arithmetic::div_mod::lemma_mod_breakdown;

verus! {

/// The ASCII digit for `d` (taken modulo ten).
pub open spec fn digit_char(d: nat) -> char {
    let d = d % 10;
    if d == 0 { '0' }
    else if d == 1 { '1' }
    else if d == 2 { '2' }
    else if d == 3 { '3' }
    else if d == 4 { '4' }
    else if d == 5 { '5' }
    else if d == 6 { '6' }
    else if d == 7 { '7' }
    else if d == 8 { '8' }
    else { '9' }
}

/// The decimal representation of `n`, without sign or leading zeros.
pub open spec fn decimal(n: nat) -> Seq<char>
    decreases n,
{
    if n < 10 {
        seq![digit_char(n)]
    } else {
        decimal(n / 10).push(digit_char(n % 10))
    }
}

/// The number a string of decimal digits stands for, most significant
/// first (each character counted by its distance from `0`).
pub open spec fn numeral_value(s: Seq<char>) -> int
    decreases s.len(),
{
    if s.len() == 0 {
        0
    } else {
        numeral_value(s.drop_last()) * 10 + ((s.last() as int) - ('0' as int))
    }
}

/// Law: the digit for `d` below ten is the character `d` places after `0`.
pub proof fn lemma_digit_char(d: nat)
    requires
        d < 10,
    ensures
        (digit_char(d) as int) == ('0' as int) + d,
        '0' <= digit_char(d) <= '9',
{
}

/// Law: the decimal text of `n` is made of digits, has no leading zero, and
/// read back as a base-10 numeral gives `n`.
pub proof fn lemma_decimal_reads_back(n: nat)
    ensures
        decimal(n).len() >= 1,
        forall|i: int| 0 <= i < decimal(n).len() ==> '0' <= #[trigger] decimal(n)[i] <= '9',
        n >= 10 ==> decimal(n)[0] != '0',
        numeral_value(decimal(n)) == n,
    decreases n,
{
    lemma_digit_char(n % 10);
    if n >= 10 {
        lemma_decimal_reads_back(n / 10);
        let h = decimal(n / 10);
        assert(decimal(n).drop_last() =~= h);
        assert(decimal(n)[0] == h[0]);
        assert(forall|i: int| 0 <= i < h.len() ==> decimal(n)[i] == h[i]);
        assert(decimal(n).last() == digit_char(n % 10));
        assert(numeral_value(decimal(n)) == numeral_value(h) * 10 + ((digit_char(n % 10) as int)
            - ('0' as int)));
        assert(n / 10 * 10 + n % 10 == n);
    } else {
        assert(decimal(n).drop_last() =~= Seq::<char>::empty());
        assert(decimal(n).last() == digit_char(n % 10));
        assert(numeral_value(decimal(n)) == numeral_value(Seq::<char>::empty()) * 10 + ((digit_char(n % 10) as int)
            - ('0' as int)));
    }
}

/// Appends one character to a string (`String::push`).
#[verifier::external_body]
fn push_char(s: &mut String, c: char)
    ensures
        final(s)@ == old(s)@.push(c),
{
    s.push(c);
}

fn digit(d: u64) -> (c: char)
    requires
        d < 10,
    ensures
        c == digit_char(d as nat),
{
    match d {
        0 => '0',
        1 => '1',
        2 => '2',
        3 => '3',
        4 => '4',
        5 => '5',
        6 => '6',
        7 => '7',
        8 => '8',
        _ => '9',
    }
}

/// Appends the decimal representation of `n` to `s`.
pub fn append_decimal(s: &mut String, n: u64)
    ensures
        final(s)@ == old(s)@ + decimal(n as nat),
    decreases n,
{
    if n >= 10 {
        append_decimal(s, n / 10);
    }
    push_char(s, digit(n % 10));
}


/// `prefix`, then `n` in decimal, then `suffix`.
pub fn with_number(prefix: &str, n: u64, suffix: &str) -> (r: String)
    ensures
        r@ == prefix@ + decimal(n as nat) + suffix@,
{
    let mut s = String::from_str(prefix);
    append_decimal(&mut s, n);
    s.append(suffix);
    s
}

/// Unicode `White_Space`: the characters that `char::is_whitespace` accepts.
pub open spec fn is_whitespace(c: char) -> bool {
    ||| '\u{9}' <= c <= '\u{d}'
    ||| c == ' '
    ||| c == '\u{85}'
    ||| c == '\u{a0}'
    ||| c == '\u{1680}'
    ||| '\u{2000}' <= c <= '\u{200a}'
    ||| c == '\u{2028}'
    ||| c == '\u{2029}'
    ||| c == '\u{202f}'
    ||| c == '\u{205f}'
    ||| c == '\u{3000}'
}

/// `s` without its leading whitespace.
pub open spec fn trim_start(s: Seq<char>) -> Seq<char>
    decreases s.len(),
{
    if s.len() > 0 && is_whitespace(s[0]) {
        trim_start(s.drop_first())
    } else {
        s
    }
}

/// `s` without its trailing whitespace.
pub open spec fn trim_end(s: Seq<char>) -> Seq<char>
    decreases s.len(),
{
    if s.len() > 0 && is_whitespace(s.last()) {
        trim_end(s.drop_last())
    } else {
        s
    }
}

/// `s` without leading and trailing whitespace.
pub open spec fn trimmed(s: Seq<char>) -> Seq<char> {
    trim_end(trim_start(s))
}

/// `str::trim`: the documentation of std says that it removes leading and
/// trailing whitespace, whitespace being the Unicode `White_Space` property;
/// the contract states exactly that.
#[verifier::external_body]
pub(crate) fn trim(s: &str) -> (r: &str)
    ensures
        r@ == trimmed(s@),
{
    s.trim()
}

/// The Unicode lower-case mapping of a whole string, as `str::to_lowercase`
/// computes it (it depends on the characters alone, never on a locale).
pub uninterp spec fn lowercase(s: Seq<char>) -> Seq<char>;

/// ASCII lower-casing of one character.
pub open spec fn ascii_lower(c: char) -> char {
    if 'A' <= c <= 'Z' {
        ((c as u32) + 32) as char
    } else {
        c
    }
}

/// ASCII lower-casing of a string.
pub open spec fn ascii_lowercase(s: Seq<char>) -> Seq<char> {
    s.map_values(|c: char| ascii_lower(c))
}

/// `str::to_lowercase`. The result is named by `lowercase`; on ASCII text the
/// documentation of std plainly gives the mapping (`A`..=`Z` to `a`..=`z`,
/// every other ASCII character unchanged), and the contract states it. What it
/// does with other characters (the Unicode tables) is left to the name.
#[verifier::external_body]
pub(crate) fn to_lowercase(s: &str) -> (r: String)
    ensures
        r@ == lowercase(s@),
        is_ascii_chars(s@) ==> r@ == ascii_lowercase(s@),
{
    s.to_lowercase()
}

/// The lower-case hexadecimal digit for `d` (taken modulo 16).
pub open spec fn hex_char(d: nat) -> char {
    let d = d % 16;
    if d < 10 { digit_char(d) }
    else if d == 10 { 'a' }
    else if d == 11 { 'b' }
    else if d == 12 { 'c' }
    else if d == 13 { 'd' }
    else if d == 14 { 'e' }
    else { 'f' }
}

/// The last `count` hexadecimal digits of `n`, most significant first,
/// padded with zeros.
pub open spec fn hex_digits(n: nat, count: nat) -> Seq<char>
    decreases count,
{
    if count == 0 {
        Seq::empty()
    } else {
        hex_digits(n / 16, (count - 1) as nat).push(hex_char(n % 16))
    }
}

/// The hyphenated lower-case text of the UUID whose 128 bits, read
/// big-endian, are `n`: its 32 hexadecimal digits in groups of 8, 4, 4, 4
/// and 12.
pub open spec fn uuid_text(n: nat) -> Seq<char> {
    let h = hex_digits(n, 32);
    h.subrange(0, 8) + seq!['-'] + h.subrange(8, 12) + seq!['-'] + h.subrange(12, 16)
        + seq!['-'] + h.subrange(16, 20) + seq!['-'] + h.subrange(20, 32)
}

/// The value of one hexadecimal digit (`0`-`9`, `a`-`f`).
pub open spec fn hex_digit_value(c: char) -> int {
    if '0' <= c <= '9' {
        (c as int) - ('0' as int)
    } else {
        (c as int) - ('a' as int) + 10
    }
}

/// The number a string of hexadecimal digits stands for, most significant
/// first.
pub open spec fn hex_value(s: Seq<char>) -> int
    decreases s.len(),
{
    if s.len() == 0 {
        0
    } else {
        hex_value(s.drop_last()) * 16 + hex_digit_value(s.last())
    }
}

/// A lower-case hexadecimal digit.
pub open spec fn is_hex_digit(c: char) -> bool {
    ('0' <= c <= '9') || ('a' <= c <= 'f')
}

/// Law: the hexadecimal digit for `d` below 16 is a lower-case digit whose
/// value is `d`.
pub proof fn lemma_hex_char(d: nat)
    requires
        d < 16,
    ensures
        is_hex_digit(hex_char(d)),
        hex_digit_value(hex_char(d)) == d,
{
}

/// Law: `hex_digits(n, k)` is `k` lower-case hexadecimal digits that read
/// back as `n` modulo `16^k`.
pub proof fn lemma_hex_digits_read_back(n: nat, k: nat)
    ensures
        hex_digits(n, k).len() == k,
        forall|i: int| 0 <= i < k ==> is_hex_digit(#[trigger] hex_digits(n, k)[i]),
        hex_value(hex_digits(n, k)) == (n as int) % pow(16, k),
    decreases k,
{
    reveal(pow);
    if k == 0 {
        assert(n % 1 == 0);
    } else {
        let k1 = (k - 1) as nat;
        lemma_hex_digits_read_back(n / 16, k1);
        lemma_hex_char(n % 16);
        let h = hex_digits(n / 16, k1);
        let full = hex_digits(n, k);
        assert(full.drop_last() =~= h);
        assert(forall|i: int| 0 <= i < k1 ==> full[i] == h[i]);
        assert(full.last() == hex_char(n % 16));
        lemma_pow_positive(16, k1);
        lemma_mod_breakdown(n as int, 16, pow(16, k1));
        assert(pow(16, k) == 16 * pow(16, k1));
        assert(hex_value(full) == hex_value(h) * 16 + hex_digit_value(full.last()));
    }
}

/// The UUID text with its hyphens taken out.
pub open spec fn without_hyphens(t: Seq<char>) -> Seq<char> {
    t.subrange(0, 8) + t.subrange(9, 13) + t.subrange(14, 18) + t.subrange(19, 23) + t.subrange(24, 36)
}

/// Law: the UUID text of a 128-bit number is 36 characters with hyphens at
/// positions 8, 13, 18 and 23; the other 32 are lower-case hexadecimal
/// digits that read back as the number.
pub proof fn lemma_uuid_text(n: u128)
    ensures
        uuid_text(n as nat).len() == 36,
        uuid_text(n as nat)[8] == '-',
        uuid_text(n as nat)[13] == '-',
        uuid_text(n as nat)[18] == '-',
        uuid_text(n as nat)[23] == '-',
        without_hyphens(uuid_text(n as nat)).len() == 32,
        forall|i: int| 0 <= i < 32 ==> is_hex_digit(#[trigger] without_hyphens(uuid_text(n as nat))[i]),
        hex_value(without_hyphens(uuid_text(n as nat))) == n,
{
    let h = hex_digits(n as nat, 32);
    lemma_hex_digits_read_back(n as nat, 32);
    let t = uuid_text(n as nat);
    assert(without_hyphens(t) =~= h);
    assert(pow(16, 32) == 0x1_0000_0000_0000_0000_0000_0000_0000_0000) by {
        reveal_with_fuel(pow, 33);
    }
    assert((n as int) % pow(16, 32) == n);
}

/// `Uuid::from_u128(n).to_string()`. In the source of the uuid crate,
/// `from_u128` takes the bytes of `n` big-endian, and `Display` writes
/// `format_hyphenated` of them in lower case: each byte as two digits from
/// `0123456789abcdef`, with a hyphen after the 8th, 12th, 16th and 20th
/// digit; the contract states exactly that.
#[verifier::external_body]
pub(crate) fn uuid_string(n: u128) -> (r: String)
    ensures
        r@ == uuid_text(n as nat),
{
    uuid::Uuid::from_u128(n).to_string()
}

/// How a JSON string writes one character: quote and backslash are escaped,
/// the control characters below U+0020 get their short escape or `\u00XX`,
/// every other character stands for itself.
pub open spec fn json_escape_char(c: char) -> Seq<char> {
    if c == '"' {
        seq!['\\', '"']
    } else if c == '\\' {
        seq!['\\', '\\']
    } else if c == '\u{8}' {
        seq!['\\', 'b']
    } else if c == '\t' {
        seq!['\\', 't']
    } else if c == '\n' {
        seq!['\\', 'n']
    } else if c == '\u{c}' {
        seq!['\\', 'f']
    } else if c == '\r' {
        seq!['\\', 'r']
    } else if (c as u32) < 0x20 {
        seq!['\\', 'u', '0', '0', hex_char((c as nat) / 16), hex_char((c as nat) % 16)]
    } else {
        seq![c]
    }
}

/// What a JSON reader makes of the escape sequence of one character: a
/// backslash and one of `" \ b t n f r`, or a backslash, `u` and four
/// hexadecimal digits; any other sequence is the character it holds.
pub open spec fn json_unescape(e: Seq<char>) -> char {
    if e.len() == 2 && e[0] == '\\' {
        if e[1] == 'b' {
            '\u{8}'
        } else if e[1] == 't' {
            '\t'
        } else if e[1] == 'n' {
            '\n'
        } else if e[1] == 'f' {
            '\u{c}'
        } else if e[1] == 'r' {
            '\r'
        } else {
            e[1]
        }
    } else if e.len() == 6 && e[0] == '\\' && e[1] == 'u' {
        (((hex_digit_value(e[2]) * 16 + hex_digit_value(e[3])) * 16 + hex_digit_value(e[4])) * 16
            + hex_digit_value(e[5])) as char
    } else {
        e[0]
    }
}

/// Law: every character's JSON form is either the character itself (never
/// a quote, a backslash or a control character) or an escape starting with
/// a backslash, and a JSON reader turns it back into the character.
pub proof fn lemma_json_escape_reads_back(c: char)
    ensures
        json_unescape(json_escape_char(c)) == c,
        json_escape_char(c) == seq![c] || json_escape_char(c)[0] == '\\',
        json_escape_char(c) == seq![c] ==> c != '"' && c != '\\' && (c as u32) >= 0x20,
{
    if (c as u32) < 0x20 && c != '\u{8}' && c != '\t' && c != '\n' && c != '\u{c}' && c != '\r' {
        lemma_hex_char((c as nat) / 16);
        lemma_hex_char((c as nat) % 16);
        lemma_digit_char(0);
        let e = json_escape_char(c);
        assert(hex_digit_value(e[2]) == 0);
        assert(hex_digit_value(e[3]) == 0);
        assert((c as nat) / 16 * 16 + (c as nat) % 16 == c as nat);
    }
}

/// Law: lower-casing an ASCII character turns each capital letter into the
/// small letter at the same place in the alphabet and leaves every other
/// character alone; no capital letter comes out.
pub proof fn lemma_ascii_lower(c: char)
    ensures
        'A' <= c <= 'Z' ==> 'a' <= ascii_lower(c) <= 'z' && (ascii_lower(c) as int) - ('a' as int)
            == (c as int) - ('A' as int),
        !('A' <= c <= 'Z') ==> ascii_lower(c) == c,
        !('A' <= ascii_lower(c) <= 'Z'),
{
}

/// The escaped contents of a JSON string holding `s`.
pub open spec fn json_escaped(s: Seq<char>) -> Seq<char>
    decreases s.len(),
{
    if s.len() == 0 {
        Seq::empty()
    } else {
        json_escape_char(s[0]) + json_escaped(s.drop_first())
    }
}

/// The JSON string literal for `s`, quotes included.
pub open spec fn json_string_literal(s: Seq<char>) -> Seq<char> {
    seq!['"'] + json_escaped(s) + seq!['"']
}

/// The error type of serde_json, carried through opaquely.
#[verifier::external_type_specification]
#[verifier::external_body]
pub struct ExJsonError(serde_json::Error);

/// `serde_json::to_string` on a `str`. In the source of serde_json a `str` is
/// written by `format_escaped_str` into an in-memory `Vec<u8>`, whose writes
/// cannot fail, between two quotes, each byte escaped by the `ESCAPE` table and
/// `write_char_escape` as `json_escape_char` states; so the call returns `Ok`
/// with that text.
#[verifier::external_body]
pub(crate) fn json_string(s: &str) -> (r: Result<String, serde_json::Error>)
    ensures
        r is Ok,
        r->Ok_0@ == json_string_literal(s@),
{
    serde_json::to_string(s)
}

} // verus!
