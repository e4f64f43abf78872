//! Number literals of the wire format: the grammar that every number on the
//! wire follows, and the decimal notation of unsigned integers.

use vstd::prelude::*;
use vstd::string::*;

verus! {

broadcast use vstd::string::group_string_axioms;

/// Appends one character to a string, as `String::push` documents it.
pub assume_specification[ String::push ](s: &mut String, c: char)
    ensures
        final(s)@ == old(s)@.push(c),
;

/// A decimal digit.
pub open spec fn is_digit(c: char) -> bool {
    '0' <= c && c <= '9'
}

/// The first position at or after `i` that holds no decimal digit.
pub open spec fn digits_end(s: Seq<char>, i: int) -> int
    decreases s.len() - i,
{
    if 0 <= i < s.len() && is_digit(s[i]) {
        digits_end(s, i + 1)
    } else {
        i
    }
}

/// Whether `s` is a number literal in normal form: an optional minus sign, an
/// integer part without superfluous leading zeros, an optional fraction of at
/// least one digit, and an optional exponent written with a lower-case `e`,
/// an explicit sign and at least one digit.
pub open spec fn is_number_literal(s: Seq<char>) -> bool {
    let a: int = if s.len() > 0 && s[0] == '-' { 1 } else { 0 };
    let b = digits_end(s, a);
    let c = if b < s.len() && s[b] == '.' { digits_end(s, b + 1) } else { b };
    &&& b > a
    &&& (s[a] == '0' ==> b == a + 1)
    &&& (c == b || c > b + 1)
    &&& (c == s.len() || {
        &&& s[c] == 'e'
        &&& c + 2 < s.len()
        &&& (s[c + 1] == '+' || s[c + 1] == '-')
        &&& digits_end(s, c + 2) == s.len()
    })
}

/// The digit that stands for a number below ten.
pub open spec fn digit_char(d: nat) -> char
    recommends d < 10,
{
    (('0' as nat) + d) as char
}

/// The number that a digit stands for.
pub open spec fn digit_value(c: char) -> nat
    recommends is_digit(c),
{
    ((c as nat) - ('0' as nat)) as nat
}

/// The decimal notation of `n`, without leading zeros.
pub open spec fn decimal(n: nat) -> Seq<char>
    decreases n,
{
    if n < 10 {
        seq![digit_char(n)]
    } else {
        decimal(n / 10).push(digit_char(n % 10))
    }
}

/// Whether `s` is the decimal notation of some unsigned integer.
pub open spec fn is_decimal(s: Seq<char>) -> bool {
    &&& s.len() > 0
    &&& forall|i: int| 0 <= i < s.len() ==> is_digit(#[trigger] s[i])
    &&& (s[0] == '0' ==> s.len() == 1)
}

/// The number that a sequence of decimal digits denotes.
pub open spec fn decimal_value(s: Seq<char>) -> nat
    decreases s.len(),
{
    if s.len() == 0 {
        0
    } else {
        decimal_value(s.drop_last()) * 10 + digit_value(s.last())
    }
}

/// A run of digits ends inside the text, holds digits only, and stops at
/// what is no digit.
pub proof fn lemma_digits_end_bounds(s: Seq<char>, i: int)
    requires
        0 <= i <= s.len(),
    ensures
        i <= digits_end(s, i) <= s.len(),
        forall|k: int| i <= k < digits_end(s, i) ==> is_digit(#[trigger] s[k]),
        digits_end(s, i) < s.len() ==> !is_digit(s[digits_end(s, i)]),
    decreases s.len() - i,
{
    if i < s.len() && is_digit(s[i]) {
        lemma_digits_end_bounds(s, i + 1);
    }
}

/// A run of digits that starts at `i` and stops at `j` ends exactly at `j`.
pub proof fn lemma_digits_end_is(s: Seq<char>, i: int, j: int)
    requires
        0 <= i <= j <= s.len(),
        forall|k: int| i <= k < j ==> is_digit(#[trigger] s[k]),
        j < s.len() ==> !is_digit(s[j]),
    ensures
        digits_end(s, i) == j,
    decreases j - i,
{
    if i < j {
        lemma_digits_end_is(s, i + 1, j);
    }
}

/// The decimal notation of a number is a decimal notation: it has a digit,
/// holds digits only, and begins with a zero only where the number is zero.
pub proof fn lemma_decimal_is_decimal(n: nat)
    ensures
        is_decimal(decimal(n)),
        n < 10 <==> decimal(n).len() == 1,
        decimal(n)[0] == '0' <==> n == 0,
    decreases n,
{
    if n >= 10 {
        lemma_decimal_is_decimal(n / 10);
        let p = decimal(n / 10);
        let s = p.push(digit_char(n % 10));
        assert(s[0] == p[0]);
        assert forall|i: int| 0 <= i < s.len() implies is_digit(#[trigger] s[i]) by {
            if i < p.len() {
                assert(s[i] == p[i]);
            }
        }
    }
}

/// Reading the decimal notation of a number gives the number back.
pub proof fn lemma_decimal_value_of_decimal(n: nat)
    ensures
        decimal_value(decimal(n)) == n,
    decreases n,
{
    if n < 10 {
        let s = seq![digit_char(n)];
        assert(s.drop_last() =~= Seq::<char>::empty());
        assert(decimal_value(s.drop_last()) == 0);
    } else {
        lemma_decimal_value_of_decimal(n / 10);
        let s = decimal(n / 10).push(digit_char(n % 10));
        assert(s.drop_last() =~= decimal(n / 10));
    }
}

/// Writing the value of a decimal notation gives the notation back.
pub proof fn lemma_decimal_of_decimal_value(s: Seq<char>)
    requires
        is_decimal(s),
    ensures
        decimal(decimal_value(s)) == s,
    decreases s.len(),
{
    let p = s.drop_last();
    if s.len() == 1 {
        assert(p =~= Seq::<char>::empty());
        assert(decimal_value(p) == 0);
        assert(decimal(decimal_value(s)) =~= s);
    } else {
        assert(p[0] == s[0]);
        assert forall|i: int| 0 <= i < p.len() implies is_digit(#[trigger] p[i]) by {
            assert(p[i] == s[i]);
        }
        if p.len() == 1 {
            assert(p.drop_last() =~= Seq::<char>::empty());
            assert(decimal_value(p.drop_last()) == 0);
            assert(decimal_value(p) >= 1);
        } else {
            lemma_decimal_value_leading(p);
        }
        lemma_decimal_of_decimal_value(p);
        let v = decimal_value(s);
        assert(v / 10 == decimal_value(p));
        assert(v % 10 == digit_value(s.last()));
        assert(decimal(v) =~= s);
    }
}

/// A decimal notation of two or more digits denotes at least ten.
pub proof fn lemma_decimal_value_leading(s: Seq<char>)
    requires
        is_decimal(s),
        s.len() >= 2,
    ensures
        decimal_value(s) >= 10,
    decreases s.len(),
{
    let p = s.drop_last();
    assert(p[0] == s[0]);
    assert forall|i: int| 0 <= i < p.len() implies is_digit(#[trigger] p[i]) by {
        assert(p[i] == s[i]);
    }
    if p.len() == 1 {
        assert(p.drop_last() =~= Seq::<char>::empty());
        assert(decimal_value(p.drop_last()) == 0);
        assert(decimal_value(p) >= 1);
    } else {
        lemma_decimal_value_leading(p);
    }
}

/// The decimal notation of a number is a number literal.
pub proof fn lemma_decimal_is_literal(n: nat)
    ensures
        is_number_literal(decimal(n)),
{
    let s = decimal(n);
    lemma_decimal_is_decimal(n);
    lemma_digits_end_is(s, 0, s.len() as int);
}

/// Whether the text is a number literal in normal form.
pub fn check_number_literal(text: &str) -> (ok: bool)
    ensures
        ok == is_number_literal(text@),
{
    if !text.is_ascii() {
        proof {
            lemma_literal_is_ascii(text@);
        }
        return false;
    }
    let bytes = text.as_bytes();
    let n: usize = bytes.len();
    let ghost s = text@;
    proof {
        lemma_ascii_bytes(text);
    }
    let a: usize = if n > 0 && bytes[0] == 45u8 { 1 } else { 0 };
    let b: usize = run_of_digits(bytes, a, Ghost(s));
    if b == a {
        return false;
    }
    if bytes[a] == 48u8 && b - a != 1 {
        return false;
    }
    let c: usize = if b < n && bytes[b] == 46u8 {
        run_of_digits(bytes, b + 1, Ghost(s))
    } else {
        b
    };
    if c != b && c - b == 1 {
        return false;
    }
    if c == n {
        return true;
    }
    if bytes[c] != 101u8 {
        return false;
    }
    if n - c <= 2 {
        return false;
    }
    if bytes[c + 1] != 43u8 && bytes[c + 1] != 45u8 {
        return false;
    }
    let d: usize = run_of_digits(bytes, c + 2, Ghost(s));
    d == n
}

/// The bytes of an ASCII text are its characters.
pub open spec fn bytes_are_chars(bytes: Seq<u8>, s: Seq<char>) -> bool {
    &&& bytes.len() == s.len()
    &&& forall|k: int| 0 <= k < s.len() ==> s[k] == (#[trigger] bytes[k]) as char
}

/// The bytes of an ASCII text are its characters.
pub proof fn lemma_ascii_bytes(text: &str)
    requires
        text.is_ascii(),
    ensures
        bytes_are_chars(text.spec_bytes(), text@),
{
    vstd::string::is_ascii_spec_bytes(text);
    vstd::utf8::is_ascii_chars_nat_bound(text@);
    let bytes = text.spec_bytes();
    assert forall|k: int| 0 <= k < text@.len() implies text@[k] == (
    #[trigger] bytes[k]) as char by {
        assert('\0' <= text@[k] <= '\u{7f}');
        assert(bytes[k] == text@[k] as u8);
    }
}

fn run_of_digits(bytes: &[u8], start: usize, Ghost(s): Ghost<Seq<char>>) -> (end: usize)
    requires
        start <= bytes@.len(),
        bytes_are_chars(bytes@, s),
    ensures
        end == digits_end(s, start as int),
        start <= end <= bytes@.len(),
{
    let mut i: usize = start;
    while i < bytes.len() && 48u8 <= bytes[i] && bytes[i] <= 57u8
        invariant
            start <= i <= bytes@.len(),
            bytes_are_chars(bytes@, s),
            digits_end(s, start as int) == digits_end(s, i as int),
        decreases bytes@.len() - i,
    {
        assert(is_digit(s[i as int]));
        i = i + 1;
    }
    assert(i < s.len() ==> !is_digit(s[i as int]));
    i
}

/// Every character of a number literal is an ASCII character.
pub proof fn lemma_literal_is_ascii(s: Seq<char>)
    ensures
        is_number_literal(s) ==> vstd::utf8::is_ascii_chars(s),
{
    if is_number_literal(s) {
        let a: int = if s.len() > 0 && s[0] == '-' { 1 } else { 0 };
        lemma_digits_end_bounds(s, a);
        let b = digits_end(s, a);
        if b < s.len() && s[b] == '.' {
            lemma_digits_end_bounds(s, b + 1);
        }
        let c = if b < s.len() && s[b] == '.' { digits_end(s, b + 1) } else { b };
        if c < s.len() {
            lemma_digits_end_bounds(s, c + 2);
        }
        assert forall|i: int| 0 <= i < s.len() implies '\0' <= #[trigger] s[i] <= '\u{7f}' by {
            if i < a {
            } else if i < b {
            } else if i < c {
            } else {
            }
        }
    }
}

/// The decimal notation of an unsigned integer.
pub fn to_decimal(n: u128) -> (text: String)
    ensures
        text@ == decimal(n as nat),
    decreases n,
{
    if n < 10 {
        let mut text = String::new();
        text.push(digit_of(n as u8));
        assert(text@ =~= seq![digit_char(n as nat)]);
        text
    } else {
        let mut text = to_decimal(n / 10);
        text.push(digit_of((n % 10) as u8));
        text
    }
}

fn digit_of(d: u8) -> (c: char)
    requires
        d < 10,
    ensures
        c == digit_char(d as nat),
{
    (48u8 + d) as char
}

/// The value of a prefix of a decimal notation never exceeds the value of
/// the whole.
pub proof fn lemma_decimal_value_prefix(s: Seq<char>, i: int)
    requires
        0 <= i <= s.len(),
    ensures
        decimal_value(s.subrange(0, i)) <= decimal_value(s),
    decreases s.len() - i,
{
    if i == s.len() {
        assert(s.subrange(0, i) =~= s);
    } else {
        lemma_decimal_value_prefix(s, i + 1);
        assert(s.subrange(0, i + 1).drop_last() =~= s.subrange(0, i));
    }
}

/// Reads the decimal notation of an unsigned integer. Anything else, and a
/// number too large for 128 bits, gives `None`.
pub fn from_decimal(text: &str) -> (r: Option<u128>)
    ensures
        r == if is_decimal(text@) && decimal_value(text@) <= u128::MAX {
            Some(decimal_value(text@) as u128)
        } else {
            None
        },
{
    if !text.is_ascii() {
        proof {
            if is_decimal(text@) {
                assert forall|i: int| 0 <= i < text@.len() implies '\0' <= #[trigger] text@[i]
                    <= '\u{7f}' by {
                    assert(is_digit(text@[i]));
                }
            }
        }
        return None;
    }
    let bytes = text.as_bytes();
    let n: usize = bytes.len();
    let ghost s = text@;
    proof {
        lemma_ascii_bytes(text);
    }
    if n == 0 {
        return None;
    }
    if bytes[0] == 48u8 && n != 1 {
        return None;
    }
    let mut acc: u128 = 0;
    let mut i: usize = 0;
    while i < n
        invariant
            0 <= i <= n,
            n == s.len(),
            s == text@,
            n == 1 || s[0] != '0',
            bytes_are_chars(bytes@, s),
            forall|k: int| 0 <= k < i ==> is_digit(#[trigger] s[k]),
            acc == decimal_value(s.subrange(0, i as int)),
        decreases n - i,
    {
        let b: u8 = bytes[i];
        if b < 48u8 || b > 57u8 {
            assert(!is_digit(s[i as int]));
            return None;
        }
        let d: u128 = (b - 48u8) as u128;
        proof {
            assert(is_digit(s[i as int]));
            assert(s.subrange(0, i + 1).drop_last() =~= s.subrange(0, i as int));
            assert(s.subrange(0, i + 1).last() == s[i as int]);
            assert(digit_value(s[i as int]) == d);
            lemma_decimal_value_prefix(s, i + 1);
        }
        if acc > (u128::MAX - d) / 10 {
            return None;
        }
        acc = acc * 10 + d;
        i = i + 1;
    }
    assert(s.subrange(0, n as int) =~= s);
    Some(acc)
}

/// A number of the wire format, kept as the literal text that it is written
/// with, so that a number passes through the library letter for letter.
#[derive(Debug, PartialEq, Eq)]
pub struct Number {
    pub text: String,
}

impl View for Number {
    type V = Seq<char>;

    open spec fn view(&self) -> Seq<char> {
        self.text@
    }
}

impl DeepView for Number {
    type V = Seq<char>;

    open spec fn deep_view(&self) -> Seq<char> {
        self.text@
    }
}

impl Clone for Number {
    fn clone(&self) -> (r: Number)
        ensures
            r@ == self@,
    {
        Number { text: self.text.clone() }
    }
}

impl Number {
    /// The number with the given literal text; `None` where the text is no
    /// number literal in normal form.
    pub fn from_text(text: &str) -> (r: Option<Number>)
        ensures
            match r {
                Some(n) => is_number_literal(text@) && n@ == text@,
                None => !is_number_literal(text@),
            },
    {
        if check_number_literal(text) {
            Some(Number { text: text.to_owned() })
        } else {
            None
        }
    }

    /// The number that denotes the unsigned integer `n`.
    pub fn from_u128(n: u128) -> (r: Number)
        ensures
            r@ == decimal(n as nat),
            is_number_literal(r@),
    {
        proof {
            lemma_decimal_is_literal(n as nat);
        }
        Number { text: to_decimal(n) }
    }

    /// The unsigned integer that the number denotes, where it is written in
    /// plain decimal notation and fits 128 bits.
    pub fn as_u128(&self) -> (r: Option<u128>)
        ensures
            r == if is_decimal(self@) && decimal_value(self@) <= u128::MAX {
                Some(decimal_value(self@) as u128)
            } else {
                None
            },
    {
        from_decimal(self.text.as_str())
    }

    /// Whether the text of the number is a number literal in normal form.
    pub fn is_literal(&self) -> (ok: bool)
        ensures
            ok == is_number_literal(self@),
    {
        check_number_literal(self.text.as_str())
    }
}

} // verus!
