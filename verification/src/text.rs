//! Character and string helpers: ASCII case folding, Unicode whitespace,
//! trimming and decimal rendering of integers.
use vstd::prelude::*;

verus! {

/// The ASCII upper-case form of `c`; every other character is left alone.
pub open spec fn ascii_upper(c: char) -> char {
    if 'a' <= c && c <= 'z' {
        ((c as u32) - 32) as char
    } else {
        c
    }
}

/// `c` is one of `0-9`, `A-Z`, `a-z`.
pub open spec fn is_ascii_alnum(c: char) -> bool {
    ('0' <= c && c <= '9') || ('A' <= c && c <= 'Z') || ('a' <= c && c <= 'z')
}

/// The characters with the Unicode `White_Space` property.
pub open spec fn is_white_space(c: char) -> bool {
    let u = c as u32;
    ||| (0x09 <= u && u <= 0x0D)
    ||| u == 0x20
    ||| u == 0x85
    ||| u == 0xA0
    ||| u == 0x1680
    ||| (0x2000 <= u && u <= 0x200A)
    ||| u == 0x2028
    ||| u == 0x2029
    ||| u == 0x202F
    ||| u == 0x205F
    ||| u == 0x3000
}

/// `s` without its leading white space.
pub open spec fn trim_start(s: Seq<char>) -> Seq<char>
    decreases s.len(),
{
    if s.len() > 0 && is_white_space(s[0]) {
        trim_start(s.drop_first())
    } else {
        s
    }
}

/// `s` without its trailing white space.
pub open spec fn trim_end(s: Seq<char>) -> Seq<char>
    decreases s.len(),
{
    if s.len() > 0 && is_white_space(s.last()) {
        trim_end(s.drop_last())
    } else {
        s
    }
}

/// `s` without leading and trailing white space.
pub open spec fn trim(s: Seq<char>) -> Seq<char> {
    trim_end(trim_start(s))
}

/// The decimal digit `d` (`0 <= d < 10`) as a character.
pub open spec fn digit_char(d: nat) -> char {
    (d + 48) as char
}

/// The decimal digits of `n`, most significant first, without leading zeros.
pub open spec fn nat_decimal(n: nat) -> Seq<char>
    decreases n,
{
    if n < 10 {
        seq![digit_char(n)]
    } else {
        nat_decimal(n / 10).push(digit_char(n % 10))
    }
}

/// The decimal form of `n`, with a leading `-` when it is negative.
pub open spec fn int_decimal(n: int) -> Seq<char> {
    if n < 0 {
        seq!['-'] + nat_decimal((-n) as nat)
    } else {
        nat_decimal(n as nat)
    }
}

/// Upper-casing twice is upper-casing once.
pub proof fn lemma_ascii_upper_idempotent(c: char)
    ensures
        ascii_upper(ascii_upper(c)) == ascii_upper(c),
{
    if 'a' <= c && c <= 'z' {
        let u = ((c as u32) - 32) as char;
        assert(u as u32 == (c as u32) - 32);
        assert(!('a' <= u && u <= 'z'));
    }
}

/// The upper-case form of an ASCII letter or digit is an ASCII digit or
/// upper-case letter.
pub proof fn lemma_ascii_upper_of_alnum(c: char)
    requires
        is_ascii_alnum(c),
    ensures
        ('0' <= ascii_upper(c) && ascii_upper(c) <= '9') || ('A' <= ascii_upper(c) && ascii_upper(c)
            <= 'Z'),
{
    if 'a' <= c && c <= 'z' {
        let u = ((c as u32) - 32) as char;
        assert(u as u32 == (c as u32) - 32);
    }
}

/// Appends `c` to `s`.
///
/// Trusted: calls `String::push` of std, which appends the character to the
/// end of the string; the contract claims exactly that of the view.
#[verifier::external_body]
pub fn push_char(s: &mut String, c: char)
    ensures
        final(s)@ == old(s)@.push(c),
{
    s.push(c);
}

/// The ASCII upper-case form of `c`, as `char::to_ascii_uppercase` computes it.
pub fn to_ascii_upper(c: char) -> (r: char)
    ensures
        r == ascii_upper(c),
{
    if 'a' <= c && c <= 'z' {
        let b: u8 = c as u8;
        (b - 32) as char
    } else {
        c
    }
}

/// Whether `c` is an ASCII letter or digit, as `char::is_ascii_alphanumeric` decides.
pub fn is_ascii_alphanumeric(c: char) -> (r: bool)
    ensures
        r == is_ascii_alnum(c),
{
    ('0' <= c && c <= '9') || ('A' <= c && c <= 'Z') || ('a' <= c && c <= 'z')
}

/// Whether `c` has the Unicode `White_Space` property, as `char::is_whitespace` decides.
pub fn is_whitespace(c: char) -> (r: bool)
    ensures
        r == is_white_space(c),
{
    let u: u32 = c as u32;
    (0x09 <= u && u <= 0x0D) || u == 0x20 || u == 0x85 || u == 0xA0 || u == 0x1680 || (0x2000 <= u
        && u <= 0x200A) || u == 0x2028 || u == 0x2029 || u == 0x202F || u == 0x205F || u == 0x3000
}

/// Appends the decimal digits of `n` to `s`.
pub fn push_unsigned(s: &mut String, n: u128)
    ensures
        final(s)@ == old(s)@ + nat_decimal(n as nat),
    decreases n,
{
    if n >= 10 {
        push_unsigned(s, n / 10);
    }
    let d: u8 = (n % 10) as u8;
    push_char(s, (d + 48) as char);
    proof {
        assert(nat_decimal(n as nat) == if n < 10 {
            seq![digit_char(n as nat)]
        } else {
            nat_decimal((n / 10) as nat).push(digit_char((n % 10) as nat))
        });
    }
}

/// Appends the decimal form of `n` (with a `-` sign when negative) to `s`.
pub fn push_signed(s: &mut String, n: i128)
    ensures
        final(s)@ == old(s)@ + int_decimal(n as int),
{
    if n < 0 {
        push_char(s, '-');
        let m: u128 = ((-(n + 1)) as u128) + 1;
        push_unsigned(s, m);
        proof {
            assert(final(s)@ =~= old(s)@ + int_decimal(n as int));
        }
    } else {
        push_unsigned(s, n as u128);
    }
}

} // verus!
