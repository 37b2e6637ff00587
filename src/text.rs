use vstd::prelude::*;

verus! {

/// The text of an optional string, if any.
pub open spec fn opt_view(o: Option<String>) -> Option<Seq<char>> {
    match o {
        Some(s) => Some(s@),
        None => None,
    }
}

/// The text of an optional string, or the empty text.
pub open spec fn view_or_empty(o: Option<String>) -> Seq<char> {
    match o {
        Some(s) => s@,
        None => Seq::empty(),
    }
}

pub open spec fn is_digit(c: char) -> bool {
    '0' <= c && c <= '9'
}

pub open spec fn digit_value(c: char) -> int {
    (c as u32) - ('0' as u32)
}

/// The decimal character of a single digit.
pub open spec fn digit_char(d: nat) -> char {
    if d == 0 { '0' }
    else if d == 1 { '1' }
    else if d == 2 { '2' }
    else if d == 3 { '3' }
    else if d == 4 { '4' }
    else if d == 5 { '5' }
    else if d == 6 { '6' }
    else if d == 7 { '7' }
    else if d == 8 { '8' }
    else { '9' }
}

/// Decimal digits of a natural number, most significant first, without leading zeros.
pub open spec fn digits_of(n: nat) -> Seq<char>
    decreases n,
{
    if n < 10 {
        seq![digit_char(n)]
    } else {
        digits_of(n / 10).push(digit_char(n % 10))
    }
}

/// Decimal notation of an integer: a minus sign for negative values, then its digits.
pub open spec fn decimal(n: int) -> Seq<char> {
    if n < 0 {
        seq!['-'] + digits_of((-n) as nat)
    } else {
        digits_of(n as nat)
    }
}

/// Value of a sequence of decimal digits.
pub open spec fn digits_value(s: Seq<char>) -> int
    decreases s.len(),
{
    if s.len() == 0 {
        0
    } else {
        digits_value(s.drop_last()) * 10 + digit_value(s.last())
    }
}

pub open spec fn all_digits(s: Seq<char>) -> bool {
    forall|i: int| 0 <= i < s.len() ==> #[trigger] is_digit(s[i])
}

/// The integer that a text spells: an optional `+` or `-` sign followed by one
/// or more decimal digits, and nothing else.
pub open spec fn parsed_int(s: Seq<char>) -> Option<int> {
    let signed = s.len() > 0 && (s[0] == '-' || s[0] == '+');
    let body = if signed { s.subrange(1, s.len() as int) } else { s };
    if body.len() > 0 && all_digits(body) {
        if signed && s[0] == '-' {
            Some(-digits_value(body))
        } else {
            Some(digits_value(body))
        }
    } else {
        None
    }
}

proof fn lemma_digits_of(n: nat)
    ensures
        digits_of(n).len() > 0,
        all_digits(digits_of(n)),
        digits_value(digits_of(n)) == n,
    decreases n,
{
    let d = digit_char(n % 10);
    assert(is_digit(d) && digit_value(d) == n % 10);
    let s = digits_of(n);
    if n >= 10 {
        lemma_digits_of(n / 10);
        assert(s.drop_last() =~= digits_of(n / 10));
        assert(s.last() == d);
        assert((n / 10) * 10 + n % 10 == n) by (nonlinear_arith);
        assert(digits_value(s) == digits_value(s.drop_last()) * 10 + digit_value(s.last()));
        assert forall|i: int| 0 <= i < s.len() implies #[trigger] is_digit(s[i]) by {
            if i < s.len() - 1 {
                assert(s[i] == digits_of(n / 10)[i]);
            }
        }
    } else {
        assert(s.drop_last() =~= Seq::<char>::empty());
        assert(digits_value(s.drop_last()) == 0);
        assert(s.last() == d);
    }
}

/// Reading back the decimal notation of an integer gives that integer.
pub proof fn lemma_parse_decimal(n: int)
    ensures
        parsed_int(decimal(n)) == Some(n),
{
    if n < 0 {
        let m = (-n) as nat;
        lemma_digits_of(m);
        let s = decimal(n);
        assert(s.subrange(1, s.len() as int) =~= digits_of(m));
    } else {
        lemma_digits_of(n as nat);
        let s = digits_of(n as nat);
        assert(is_digit(s[0]));
    }
}

/// Relies on `String::push`: appends one character.
#[verifier::external_body]
pub(crate) fn push_char(s: &mut String, c: char)
    ensures
        final(s)@ == old(s)@.push(c),
{
    s.push(c);
}

/// Relies on `String::pop`: removes and returns the last character, if any.
#[verifier::external_body]
pub(crate) fn pop_char(s: &mut String) -> (r: Option<char>)
    ensures
        old(s)@.len() == 0 ==> r is None && final(s)@ == old(s)@,
        old(s)@.len() > 0 ==> r == Some(old(s)@.last()) && final(s)@ == old(s)@.drop_last(),
{
    s.pop()
}

/// Relies on `i64`'s `to_string`: its decimal notation.
#[verifier::external_body]
pub(crate) fn i64_to_string(n: i64) -> (r: String)
    ensures
        r@ == decimal(n as int),
{
    n.to_string()
}

/// Relies on `i32`'s `to_string`: its decimal notation.
#[verifier::external_body]
pub(crate) fn i32_to_string(n: i32) -> (r: String)
    ensures
        r@ == decimal(n as int),
{
    n.to_string()
}

/// Relies on `str::parse::<i64>`: an optional sign and decimal digits whose
/// value fits in an `i64`; anything else is an error.
#[verifier::external_body]
pub(crate) fn parse_i64(s: &str) -> (r: Option<i64>)
    ensures
        r matches Some(v) ==> parsed_int(s@) == Some(v as int),
        r is None ==> (parsed_int(s@) matches Some(v) ==> !(i64::MIN <= v <= i64::MAX)),
{
    s.parse::<i64>().ok()
}

/// Relies on `str::parse::<i32>`: an optional sign and decimal digits whose
/// value fits in an `i32`; anything else is an error.
#[verifier::external_body]
pub(crate) fn parse_i32(s: &str) -> (r: Option<i32>)
    ensures
        r matches Some(v) ==> parsed_int(s@) == Some(v as int),
        r is None ==> (parsed_int(s@) matches Some(v) ==> !(i32::MIN <= v <= i32::MAX)),
{
    s.parse::<i32>().ok()
}

/// A copy of an optional string's text, or the empty string.
pub(crate) fn string_or_empty(o: &Option<String>) -> (r: String)
    ensures
        r@ == view_or_empty(*o),
{
    match o {
        Some(s) => s.clone(),
        None => String::new(),
    }
}

pub(crate) fn clone_opt_string(o: &Option<String>) -> (r: Option<String>)
    ensures
        opt_view(r) == opt_view(*o),
{
    match o {
        Some(s) => Some(s.clone()),
        None => None,
    }
}

} // verus!
