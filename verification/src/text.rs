//! Decimal and padded text, as the formats `{}`, `{:4}`, `{:02}` and `{:<n}`
//! write it.
use vstd::prelude::*;

verus! {

/// The character of the decimal digit `d`.
pub open spec fn digit_char(d: nat) -> char {
    (48 + d) as char
}

/// The decimal representation of `n`, without leading zeros.
pub open spec fn decimal(n: nat) -> Seq<char>
    decreases n,
{
    if n < 10 {
        seq![digit_char(n)]
    } else {
        decimal(n / 10).push(digit_char(n % 10))
    }
}

/// The decimal representation of `n`, with a leading `-` when negative.
pub open spec fn signed_decimal(n: int) -> Seq<char> {
    if n < 0 {
        seq!['-'] + decimal((-n) as nat)
    } else {
        decimal(n as nat)
    }
}

/// `n` copies of `c`.
pub open spec fn repeat(c: char, n: nat) -> Seq<char> {
    Seq::new(n, |i: int| c)
}

/// `s` preceded by as many `fill` characters as make it `width` long.
pub open spec fn pad_left(s: Seq<char>, width: nat, fill: char) -> Seq<char> {
    if s.len() >= width {
        s
    } else {
        repeat(fill, (width - s.len()) as nat) + s
    }
}

/// `s` followed by as many spaces as make it `width` long.
pub open spec fn pad_right(s: Seq<char>, width: nat) -> Seq<char> {
    if s.len() >= width {
        s
    } else {
        s + repeat(' ', (width - s.len()) as nat)
    }
}

/// `{:02}`: the decimal of `n` zero-padded to two characters.
pub open spec fn two_digits(n: nat) -> Seq<char> {
    pad_left(decimal(n), 2, '0')
}

/// Appends one character (std's `String::push`).
#[verifier::external_body]
pub(crate) fn push_char(s: &mut String, c: char)
    ensures
        final(s)@ == old(s)@.push(c),
{
    s.push(c);
}

/// Appends the decimal representation of `n`.
pub fn push_decimal(s: &mut String, n: u64)
    ensures
        final(s)@ == old(s)@ + decimal(n as nat),
    decreases n,
{
    if n >= 10 {
        push_decimal(s, n / 10);
    }
    let d: u8 = (n % 10) as u8;
    push_char(s, (48u8 + d) as char);
    assert(final(s)@ =~= old(s)@ + decimal(n as nat));
}

/// The decimal representation of `n`.
pub fn decimal_text(n: u64) -> (r: String)
    ensures
        r@ == decimal(n as nat),
{
    let mut s = String::new();
    push_decimal(&mut s, n);
    assert(s@ =~= decimal(n as nat));
    s
}

/// The decimal representation of `n`, with a leading `-` when negative.
pub fn signed_decimal_text(n: i32) -> (r: String)
    ensures
        r@ == signed_decimal(n as int),
{
    let mut s = String::new();
    if n < 0 {
        push_char(&mut s, '-');
        let magnitude: i64 = -(n as i64);
        push_decimal(&mut s, magnitude as u64);
    } else {
        push_decimal(&mut s, n as u64);
    }
    assert(s@ =~= signed_decimal(n as int));
    s
}

/// Appends `n` copies of `c`.
pub fn push_repeat(s: &mut String, c: char, n: usize)
    ensures
        final(s)@ == old(s)@ + repeat(c, n as nat),
{
    let mut i: usize = 0;
    while i < n
        invariant
            i <= n,
            s@ == old(s)@ + repeat(c, i as nat),
        decreases n - i,
    {
        push_char(s, c);
        i = i + 1;
        assert(s@ =~= old(s)@ + repeat(c, i as nat));
    }
}

/// `s` left-padded with `fill` to `width` characters.
pub fn pad_left_text(s: &str, width: usize, fill: char) -> (r: String)
    ensures
        r@ == pad_left(s@, width as nat, fill),
{
    let len = s.unicode_len();
    let mut r = String::new();
    if len < width {
        push_repeat(&mut r, fill, width - len);
    }
    r.append(s);
    assert(r@ =~= pad_left(s@, width as nat, fill));
    r
}

/// `s` right-padded with spaces to `width` characters.
pub fn pad_right_text(s: &str, width: usize) -> (r: String)
    ensures
        r@ == pad_right(s@, width as nat),
{
    let len = s.unicode_len();
    let mut r = String::from_str(s);
    if len < width {
        push_repeat(&mut r, ' ', width - len);
    }
    assert(r@ =~= pad_right(s@, width as nat));
    r
}

/// `{:02}` of `n`.
pub fn two_digits_text(n: u64) -> (r: String)
    ensures
        r@ == two_digits(n as nat),
{
    let d = decimal_text(n);
    pad_left_text(d.as_str(), 2, '0')
}

} // verus!
