//! Text building: decimal numbers, padding and quoting.
use vstd::prelude::*;

verus! {

/// The character of the decimal digit `d`.
pub open spec fn digit_char(d: int) -> char
    recommends
        0 <= d < 10,
{
    ((d + 48) as u32) as char
}

/// The decimal representation of `n`, without sign or leading zeros.
pub open spec fn decimal(n: nat) -> Seq<char>
    decreases n,
{
    if n < 10 {
        seq![digit_char(n as int)]
    } else {
        decimal(n / 10).push(digit_char((n % 10) as int))
    }
}

/// Appends one character to a string.
#[verifier::external_body]
fn push_char(s: &mut String, c: char)
    ensures
        final(s)@ == old(s)@.push(c),
{
    s.push(c);
}

fn digit(d: u64) -> (c: char)
    requires
        d < 10,
    ensures
        c == digit_char(d as int),
{
    let b: u8 = 48 + (d as u8);
    b as char
}

/// Appends the decimal representation of `n` to `s`.
pub fn push_decimal(s: &mut String, n: u64)
    ensures
        final(s)@ == old(s)@ + decimal(n as nat),
    decreases n,
{
    if n >= 10 {
        push_decimal(s, n / 10);
    }
    push_char(s, digit(n % 10));
    proof {
        if n >= 10 {
            assert(decimal(n as nat) == decimal((n / 10) as nat).push(digit_char((n % 10) as int)));
        }
    }
}

/// `n` spaces.
pub open spec fn spaces(n: nat) -> Seq<char> {
    Seq::new(n, |i: int| ' ')
}

/// `t` followed by as many spaces as make it `width` characters long; `t`
/// itself when it is that long already.
pub open spec fn pad_right(t: Seq<char>, width: nat) -> Seq<char> {
    if t.len() >= width {
        t
    } else {
        t + spaces((width - t.len()) as nat)
    }
}

/// Appends `t` padded with spaces to `width` characters.
pub fn push_padded(s: &mut String, t: &str, width: usize)
    ensures
        final(s)@ == old(s)@ + pad_right(t@, width as nat),
{
    let ghost start = s@;
    s.append(t);
    let len = t.unicode_len();
    if len < width {
        let mut k: usize = len;
        while k < width
            invariant
                len <= k <= width,
                len == t@.len(),
                s@ == start + t@ + spaces((k - len) as nat),
            decreases width - k,
        {
            push_char(s, ' ');
            k = k + 1;
            assert(s@ =~= start + t@ + spaces((k - len) as nat));
        }
        assert(s@ =~= start + pad_right(t@, width as nat));
    } else {
        assert(s@ =~= start + pad_right(t@, width as nat));
    }
}

/// The way a boolean is displayed.
pub open spec fn bool_text(b: bool) -> Seq<char> {
    if b {
        "true"@
    } else {
        "false"@
    }
}

/// Appends `true` or `false`.
pub fn push_bool(s: &mut String, b: bool)
    ensures
        final(s)@ == old(s)@ + bool_text(b),
{
    if b {
        s.append("true");
    } else {
        s.append("false");
    }
}

/// What the standard library's `Debug` implementation of `str` writes for
/// a string: the string quoted, with its special characters escaped.
pub uninterp spec fn debug_quoted(text: Seq<char>) -> Seq<char>;

/// Formats `text` with the standard library's `Debug` implementation of
/// `str`. Its contract only ties the result to `text` through
/// [`debug_quoted`]: the escaping rules are std's.
#[verifier::external_body]
fn debug_str(text: &str) -> (quoted: String)
    ensures
        quoted@ == debug_quoted(text@),
{
    format!("{:?}", text)
}

/// Appends `text` quoted and escaped as `Debug` writes a string.
pub fn push_debug_quoted(s: &mut String, text: &str)
    ensures
        final(s)@ == old(s)@ + debug_quoted(text@),
{
    let quoted = debug_str(text);
    s.append(quoted.as_str());
}

} // verus!

verus! {

/// The number that a string of decimal digits denotes.
pub open spec fn digits_value(s: Seq<char>) -> int
    decreases s.len(),
{
    if s.len() == 0 {
        0
    } else {
        digits_value(s.drop_last()) * 10 + (s.last() as int - 48)
    }
}

/// The decimal representation of `n` is a non-empty string of digits,
/// without a leading zero unless `n` is 0, that denotes `n`.
pub proof fn law_decimal_denotes(n: nat)
    ensures
        decimal(n).len() >= 1,
        forall|i: int| 0 <= i < decimal(n).len() ==> '0' <= #[trigger] decimal(n)[i] <= '9',
        decimal(n)[0] == '0' ==> n == 0,
        digits_value(decimal(n)) == n,
    decreases n,
{
    if n < 10 {
        assert(digit_char(n as int) as int == n + 48);
        assert(decimal(n) == seq![digit_char(n as int)]);
        assert(decimal(n).drop_last() =~= Seq::<char>::empty());
        assert(digits_value(Seq::<char>::empty()) == 0);
        assert(digits_value(decimal(n)) == digits_value(decimal(n).drop_last()) * 10 + (
        decimal(n).last() as int - 48));
    } else {
        law_decimal_denotes(n / 10);
        let d = decimal(n);
        let q = decimal(n / 10);
        assert(d == q.push(digit_char((n % 10) as int)));
        assert(d.drop_last() =~= q);
        assert(digit_char((n % 10) as int) as int == n % 10 + 48);
        assert(n == (n / 10) * 10 + n % 10);
        assert(d.last() == digit_char((n % 10) as int));
        assert(digits_value(d) == digits_value(q) * 10 + (d.last() as int - 48));
        assert forall|i: int| 0 <= i < d.len() implies '0' <= #[trigger] d[i] <= '9' by {
            if i < q.len() {
                assert(d[i] == q[i]);
            }
        }
        assert(d[0] == q[0]);
    }
}

/// Padding keeps the text in front, makes it at least `width` long, and
/// fills the rest with spaces.
pub proof fn law_pad_right(t: Seq<char>, width: nat)
    ensures
        pad_right(t, width).len() == if t.len() >= width {
            t.len()
        } else {
            width
        },
        pad_right(t, width).subrange(0, t.len() as int) == t,
        forall|i: int|
            t.len() <= i < pad_right(t, width).len() ==> #[trigger] pad_right(t, width)[i] == ' ',
{
    assert(pad_right(t, width).subrange(0, t.len() as int) =~= t);
}

} // verus!
