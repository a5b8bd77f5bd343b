//! Small text utilities shared by the modules of this crate: rendering in
//! the quoted `Debug` form of std, decimal rendering, string comparison and
//! the checks that C strings impose (no interior NUL, valid UTF-8).

use vstd::prelude::*;
use vstd::utf8::{decode_utf8, valid_utf8};

verus! {

/// What std's `Debug` formatting of a string slice yields: the text in double
/// quotes, with escapes for quotes, backslashes and characters that are not
/// printable.
pub uninterp spec fn debug_text(s: Seq<char>) -> Seq<char>;

/// A character that `Debug` for `str` writes unchanged: printable ASCII
/// other than the double quote, the single quote and the backslash.
pub open spec fn plain_char(c: char) -> bool {
    ' ' <= c <= '~' && c != '"' && c != '\'' && c != '\\'
}

/// Renders `s` the way `format!("{:?}", s)` does.
///
/// Trusted: calls std's `Debug` implementation for `str`. The result is named
/// by `debug_text`; beyond that, only that a text made of plain characters is
/// written between double quotes unchanged.
#[verifier::external_body]
pub(crate) fn debug_quoted(s: &str) -> (r: String)
    ensures
        r@ == debug_text(s@),
        (forall|i: int| 0 <= i < s@.len() ==> plain_char(#[trigger] s@[i])) ==> r@ == seq!['"']
            + s@ + seq!['"'],
{
    format!("{:?}", s)
}

/// Appends one character to a string.
///
/// Trusted: calls std's `String::push`, which appends the character at the end.
#[verifier::external_body]
fn push_char(s: &mut String, c: char)
    ensures
        final(s)@ == old(s)@.push(c),
{
    s.push(c)
}

/// Compares two string slices.
///
/// Trusted: calls std's `PartialEq` for `str`, which compares the contents.
#[verifier::external_body]
pub(crate) fn str_eq(a: &str, b: &str) -> (r: bool)
    ensures
        r == (a@ == b@),
{
    a == b
}

/// Decodes UTF-8 bytes into a string, or `None` if they are not valid UTF-8.
///
/// Trusted: calls std's `str::from_utf8`, which succeeds exactly on valid
/// UTF-8 and then holds the decoded characters.
#[verifier::external_body]
fn utf8_to_string(bytes: &[u8]) -> (r: Option<String>)
    ensures
        r is Some <==> valid_utf8(bytes@),
        r matches Some(s) ==> s@ == decode_utf8(bytes@),
{
    match std::str::from_utf8(bytes) {
        Ok(s) => Some(s.to_string()),
        Err(_) => None,
    }
}

/// The character of a decimal digit.
pub open spec fn digit_char(d: nat) -> char {
    if d == 0 {
        '0'
    } else if d == 1 {
        '1'
    } else if d == 2 {
        '2'
    } else if d == 3 {
        '3'
    } else if d == 4 {
        '4'
    } else if d == 5 {
        '5'
    } else if d == 6 {
        '6'
    } else if d == 7 {
        '7'
    } else if d == 8 {
        '8'
    } else {
        '9'
    }
}

/// The decimal notation of a natural number, without leading zeros.
pub open spec fn decimal(n: nat) -> Seq<char>
    decreases n,
{
    if n < 10 {
        seq![digit_char(n)]
    } else {
        decimal(n / 10).push(digit_char(n % 10))
    }
}

/// The number a decimal digit character stands for, by its code point.
pub open spec fn digit_value(c: char) -> int {
    (c as int) - ('0' as int)
}

/// The number that a sequence of decimal digits denotes, most significant
/// digit first.
pub open spec fn digits_value(s: Seq<char>) -> int
    decreases s.len(),
{
    if s.len() == 0 {
        0
    } else {
        digits_value(s.drop_last()) * 10 + digit_value(s.last())
    }
}

/// `decimal(n)` is the base-10 notation of `n`: it is made of the digits
/// `'0'`..`'9'`, reading them back gives `n`, and it has no leading zero
/// (only `0` itself starts with `'0'`).
pub proof fn law_decimal_is_base_ten(n: nat)
    ensures
        decimal(n).len() >= 1,
        forall|i: int| 0 <= i < decimal(n).len() ==> '0' <= #[trigger] decimal(n)[i] <= '9',
        digits_value(decimal(n)) == n,
        decimal(n)[0] == '0' <==> n == 0,
    decreases n,
{
    if n < 10 {
        let d = decimal(n);
        assert(d == seq![digit_char(n)]);
        assert(d.drop_last() =~= Seq::<char>::empty());
        assert(digit_value(digit_char(n)) == n);
        assert(d.last() == digit_char(n));
        assert(digits_value(d.drop_last()) == 0);
        assert(digits_value(d) == digits_value(d.drop_last()) * 10 + digit_value(d.last()));
    } else {
        law_decimal_is_base_ten(n / 10);
        let p = decimal(n / 10);
        let d = decimal(n);
        assert(d == p.push(digit_char(n % 10)));
        assert(d.drop_last() =~= p);
        assert(digit_value(digit_char(n % 10)) == n % 10);
        assert(d[0] == p[0]);
        assert forall|i: int| 0 <= i < d.len() implies '0' <= #[trigger] d[i] <= '9' by {
            if i < p.len() {
                assert(d[i] == p[i]);
            }
        }
        assert(d.last() == digit_char(n % 10));
        assert(digits_value(d) == digits_value(d.drop_last()) * 10 + digit_value(d.last()));
        assert(digits_value(p) == n / 10);
        assert(n == (n / 10) * 10 + n % 10);
    }
}

/// `t` occurs as a contiguous part of `s`.
pub open spec fn occurs_in(t: Seq<char>, s: Seq<char>) -> bool {
    exists|j: int| 0 <= j && j + t.len() <= s.len() && #[trigger] s.subrange(j, j + t.len()) == t
}

/// A part of `x` is a part of any text that contains `x`.
pub proof fn lemma_occurs_in_context(t: Seq<char>, a: Seq<char>, x: Seq<char>, b: Seq<char>)
    requires
        occurs_in(t, x),
    ensures
        occurs_in(t, a + x + b),
{
    let j = choose|j: int| 0 <= j && j + t.len() <= x.len() && #[trigger] x.subrange(j, j + t.len()) == t;
    let s = a + x + b;
    let k = a.len() + j;
    assert(s.subrange(k, k + t.len()) =~= x.subrange(j, j + t.len()));
}

/// In `a + x + b`, with `a` and `b` fixed, the whole determines the middle.
pub proof fn lemma_middle_determined(a: Seq<char>, x: Seq<char>, y: Seq<char>, b: Seq<char>)
    requires
        a + x + b == a + y + b,
    ensures
        x == y,
{
    let s = a + x + b;
    assert((a + x + b).len() == a.len() + x.len() + b.len());
    assert((a + y + b).len() == a.len() + y.len() + b.len());
    assert(x.len() == y.len());
    assert(x =~= s.subrange(a.len() as int, (a.len() + x.len()) as int));
    assert(y =~= (a + y + b).subrange(a.len() as int, (a.len() + y.len()) as int));
}

fn digit(d: usize) -> (c: char)
    requires
        d < 10,
    ensures
        c == digit_char(d as nat),
{
    if d == 0 {
        '0'
    } else if d == 1 {
        '1'
    } else if d == 2 {
        '2'
    } else if d == 3 {
        '3'
    } else if d == 4 {
        '4'
    } else if d == 5 {
        '5'
    } else if d == 6 {
        '6'
    } else if d == 7 {
        '7'
    } else if d == 8 {
        '8'
    } else {
        '9'
    }
}

/// Appends the decimal notation of `n` to `out`.
pub fn push_decimal(out: &mut String, n: usize)
    ensures
        final(out)@ == old(out)@ + decimal(n as nat),
    decreases n,
{
    if n >= 10 {
        push_decimal(out, n / 10);
    }
    push_char(out, digit(n % 10));
    assert(decimal(n as nat) == if n < 10 {
        seq![digit_char(n as nat)]
    } else {
        decimal((n / 10) as nat).push(digit_char((n % 10) as nat))
    });
}

/// Returns `true` if `s` holds the NUL character, which a C string cannot hold.
pub fn has_nul(s: &str) -> (r: bool)
    ensures
        r == s@.contains('\0'),
{
    broadcast use vstd::string::axiom_spec_iter;
    for c in it: s.chars()
        invariant
            it.seq() == s@,
            forall|j: int| 0 <= j < it.index() ==> s@[j] != '\0',
    {
        if c == '\0' {
            return true;
        }
    }
    false
}

/// The text of a C string DuckDB handed out, given its bytes (without the
/// terminating NUL), or `None` for a null pointer: `None` as well when the
/// bytes are not valid UTF-8.
pub fn c_text_to_string(bytes: Option<&[u8]>) -> (r: Option<String>)
    ensures
        bytes is None ==> r is None,
        bytes matches Some(b) ==> (r is Some <==> valid_utf8(b@)),
        bytes matches Some(b) ==> (r matches Some(s) ==> s@ == decode_utf8(b@)),
{
    match bytes {
        Some(b) => utf8_to_string(b),
        None => None,
    }
}

} // verus!
