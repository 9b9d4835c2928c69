//! The addresses under which mpv opens streams: `servo://` and a stream's number.

use vstd::prelude::*;

verus! {

/// What stands before the stream's number.
pub open spec fn scheme() -> Seq<char> {
    seq!['s', 'e', 'r', 'v', 'o', ':', '/', '/']
}

/// Whether a text starts with another.
pub open spec fn starts_with(s: Seq<char>, prefix: Seq<char>) -> bool {
    prefix.len() <= s.len() && s.take(prefix.len() as int) == prefix
}

/// A text without the scheme at its start, however often it is repeated there.
pub open spec fn without_scheme(s: Seq<char>) -> Seq<char>
    decreases s.len(),
{
    if starts_with(s, scheme()) {
        without_scheme(s.skip(scheme().len() as int))
    } else {
        s
    }
}

/// Whether a character is a decimal digit.
pub open spec fn is_digit(c: char) -> bool {
    '0' <= c <= '9'
}

/// The digit for a number below ten.
pub open spec fn digit(n: nat) -> char {
    (n + 48) as char
}

/// The decimal digits of a number, without leading zeros.
pub open spec fn decimal(n: nat) -> Seq<char>
    decreases n,
{
    if n < 10 {
        seq![digit(n)]
    } else {
        decimal(n / 10).push(digit(n % 10))
    }
}

/// The number that digits stand for.
pub open spec fn value_of(s: Seq<char>) -> nat
    decreases s.len(),
{
    if s.len() == 0 {
        0
    } else {
        value_of(s.drop_last()) * 10 + (s.last() as nat - 48) as nat
    }
}

/// A text without a plus sign at its start.
pub open spec fn without_plus(s: Seq<char>) -> Seq<char> {
    if s.len() > 0 && s[0] == '+' {
        s.skip(1)
    } else {
        s
    }
}

/// The number that a text stands for, if it is made of digits, at least one, and fits 64
/// bits.
pub open spec fn digits_number(s: Seq<char>) -> Option<u64> {
    if s.len() > 0 && (forall|i: int| 0 <= i < s.len() ==> is_digit(#[trigger] s[i])) && value_of(s)
        <= u64::MAX {
        Some(value_of(s) as u64)
    } else {
        None
    }
}

/// The number that a text stands for, where a plus sign may stand before the digits.
pub open spec fn number_of(s: Seq<char>) -> Option<u64> {
    digits_number(without_plus(s))
}

/// The address of a stream.
pub open spec fn address_of(id: u64) -> Seq<char> {
    scheme() + decimal(id as nat)
}

/// The digits of a number behind some text.
fn append_decimal(text: &mut String, n: u64)
    ensures
        final(text)@ == old(text)@ + decimal(n as nat),
    decreases n,
{
    let ghost before = text@;
    if n >= 10 {
        append_decimal(text, n / 10);
    }
    let last: u64 = n % 10;
    let shown: &'static str = digit_text(last);
    text.append(shown);
    assert(text@ =~= before + decimal(n as nat));
}

/// The text of a digit.
fn digit_text(n: u64) -> (r: &'static str)
    requires
        n < 10,
    ensures
        r@ == seq![digit(n as nat)],
{
    proof {
        reveal_strlit("0");
        reveal_strlit("1");
        reveal_strlit("2");
        reveal_strlit("3");
        reveal_strlit("4");
        reveal_strlit("5");
        reveal_strlit("6");
        reveal_strlit("7");
        reveal_strlit("8");
        reveal_strlit("9");
    }
    let r = match n {
        0 => "0",
        1 => "1",
        2 => "2",
        3 => "3",
        4 => "4",
        5 => "5",
        6 => "6",
        7 => "7",
        8 => "8",
        _ => "9",
    };
    assert(r@ =~= seq![digit(n as nat)]);
    r
}

/// The address under which mpv is to load a stream.
pub fn stream_address(id: u64) -> (r: String)
    ensures
        r@ == address_of(id),
{
    let mut text = "servo://".to_owned();
    proof {
        reveal_strlit("servo://");
        assert(text@ =~= scheme());
    }
    append_decimal(&mut text, id);
    text
}

/// The characters of a text.
fn characters(text: &str) -> (r: Vec<char>)
    ensures
        r@ == text@,
{
    let mut r: Vec<char> = Vec::new();
    for c in chars: text.chars()
        invariant
            r@ == chars.seq().take(chars.index()),
            chars.seq() == text@,
    {
        r.push(c);
    }
    r
}

/// Whether the scheme stands in a text at an index.
fn scheme_at(text: &Vec<char>, at: usize) -> (r: bool)
    requires
        at <= text@.len(),
    ensures
        r == starts_with(text@.skip(at as int), scheme()),
{
    let rest: usize = text.len() - at;
    let r: bool = rest >= 8 && text[at] == 's' && text[at + 1] == 'e' && text[at + 2] == 'r'
        && text[at + 3] == 'v' && text[at + 4] == 'o' && text[at + 5] == ':' && text[at + 6] == '/'
        && text[at + 7] == '/';
    proof {
        let tail = text@.skip(at as int);
        if r {
            assert(tail.take(8) =~= scheme());
        } else if tail.len() >= 8 {
            let head = tail.take(8);
            assert(head[0] == text@[at as int]);
            assert(head[1] == text@[at + 1]);
            assert(head[2] == text@[at + 2]);
            assert(head[3] == text@[at + 3]);
            assert(head[4] == text@[at + 4]);
            assert(head[5] == text@[at + 5]);
            assert(head[6] == text@[at + 6]);
            assert(head[7] == text@[at + 7]);
        }
    }
    r
}

/// A text never stands for less than its beginning does.
proof fn value_grows(s: Seq<char>, k: int)
    requires
        0 <= k <= s.len(),
    ensures
        value_of(s.take(k)) <= value_of(s),
    decreases s.len() - k,
{
    if k < s.len() {
        value_grows(s, k + 1);
        assert(s.take(k + 1).drop_last() =~= s.take(k));
    } else {
        assert(s.take(k) =~= s);
    }
}

/// The number that digits from an index on stand for.
fn parse_digits(text: &Vec<char>, from: usize) -> (r: Option<u64>)
    requires
        from <= text@.len(),
    ensures
        r == digits_number(text@.skip(from as int)),
{
    let ghost digits = text@.skip(from as int);
    let len: usize = text.len();
    if from == len {
        return None;
    }
    let mut at: usize = from;
    let mut value: u64 = 0;
    assert(digits.take(0) =~= Seq::<char>::empty());
    while at < len
        invariant
            from <= at <= len,
            len == text@.len(),
            digits == text@.skip(from as int),
            value == value_of(digits.take(at - from)),
            forall|i: int| 0 <= i < at - from ==> is_digit(#[trigger] digits[i]),
        decreases len - at,
    {
        let c: char = text[at];
        let ghost k = at - from;
        assert(digits[k] == c);
        if c < '0' || c > '9' {
            assert(!is_digit(digits[k]));
            return None;
        }
        let d: u64 = c as u64 - 48;
        proof {
            assert(digits.take(k + 1).drop_last() =~= digits.take(k));
            assert(digits.take(k + 1).last() == c);
            value_grows(digits, k + 1);
        }
        if value > (u64::MAX - d) / 10 {
            assert(value_of(digits) > u64::MAX);
            return None;
        }
        value = value * 10 + d;
        at = at + 1;
    }
    assert(digits.take(digits.len() as int) =~= digits);
    Some(value)
}

/// The number of the stream that an address names: the text behind the scheme, which may
/// be missing or repeated, read as a decimal number. None where that is no number or one
/// that does not fit.
pub fn parse_stream_id(uri: &str) -> (r: Option<u64>)
    ensures
        r == number_of(without_scheme(uri@)),
{
    let text: Vec<char> = characters(uri);
    let len: usize = text.len();
    let mut at: usize = 0;
    assert(text@.skip(0) =~= text@);
    while scheme_at(&text, at)
        invariant
            at <= len,
            len == text@.len(),
            without_scheme(text@.skip(at as int)) == without_scheme(uri@),
        decreases len - at,
    {
        assert(text@.skip(at as int).skip(8) =~= text@.skip(at + 8));
        at = at + 8;
    }
    let ghost number = text@.skip(at as int);
    if at < len && text[at] == '+' {
        assert(number[0] == '+');
        assert(number.skip(1) =~= text@.skip(at + 1));
        parse_digits(&text, at + 1)
    } else {
        assert(number.len() > 0 ==> number[0] == text@[at as int]);
        parse_digits(&text, at)
    }
}

/// The digits of a number stand for it.
proof fn decimal_has_value(n: nat)
    ensures
        decimal(n).len() > 0,
        value_of(decimal(n)) == n,
        forall|i: int| 0 <= i < decimal(n).len() ==> is_digit(#[trigger] decimal(n)[i]),
    decreases n,
{
    if n < 10 {
        assert(seq![digit(n)].drop_last() =~= Seq::<char>::empty());
        assert(value_of(Seq::<char>::empty()) == 0);
    } else {
        decimal_has_value(n / 10);
        assert(decimal(n).drop_last() =~= decimal(n / 10));
    }
}

/// mpv opens the stream that it was told to load: the address of a stream, of whichever
/// number, names that stream.
pub proof fn address_names_stream(id: u64)
    ensures
        number_of(without_scheme(address_of(id))) == Some(id),
{
    let digits = decimal(id as nat);
    decimal_has_value(id as nat);
    assert(is_digit(digits[0]));
    let full = address_of(id);
    assert(full.take(8) =~= scheme());
    assert(full.skip(8) =~= digits);
    if starts_with(digits, scheme()) {
        assert(digits.take(8)[0] == digits[0]);
        assert(digits[0] == 's');
    }
    assert(without_scheme(digits) == digits);
    assert(without_scheme(full) == digits);
}

/// No two streams share an address.
pub proof fn addresses_are_distinct(a: u64, b: u64)
    requires
        a != b,
    ensures
        address_of(a) != address_of(b),
{
    address_names_stream(a);
    address_names_stream(b);
}

/// The scheme is the text `servo://`.
pub proof fn scheme_is_its_text()
    ensures
        scheme() == "servo://"@,
{
    reveal_strlit("servo://");
    assert(scheme() =~= "servo://"@);
}

/// Ten to some power.
pub open spec fn power_of_ten(n: nat) -> nat
    decreases n,
{
    if n == 0 {
        1
    } else {
        10 * power_of_ten((n - 1) as nat)
    }
}

/// A digit stands for its distance from `0`, and digits in front count as much more as the
/// digits behind are many.
pub proof fn digits_have_place_values(c: char, front: Seq<char>, back: Seq<char>)
    ensures
        is_digit(c) <==> 48 <= c as int <= 57,
        is_digit(c) ==> value_of(seq![c]) == c as int - 48,
        value_of(front + back) == value_of(front) * power_of_ten(back.len()) + value_of(back),
    decreases back.len(),
{
    assert(seq![c].drop_last() =~= Seq::<char>::empty());
    assert(value_of(Seq::<char>::empty()) == 0);
    if back.len() == 0 {
        assert(front + back =~= front);
        assert(power_of_ten(0) == 1);
        assert(value_of(front) * 1 == value_of(front));
    } else {
        let rest = back.drop_last();
        digits_have_place_values(c, front, rest);
        assert((front + back).drop_last() =~= front + rest);
        let a = value_of(front);
        let p = power_of_ten(rest.len());
        assert((front + back).last() == back.last());
        assert(power_of_ten(back.len()) == 10 * p);
        assert((a * p) * 10 == a * (10 * p)) by (nonlinear_arith);
    }
}

/// The decimal digits of a number stand for it, and the first of them is no zero unless the
/// number is.
pub proof fn decimal_is_shortest(n: nat)
    ensures
        decimal(n).len() > 0,
        value_of(decimal(n)) == n,
        forall|i: int| 0 <= i < decimal(n).len() ==> 48 <= #[trigger] decimal(n)[i] as int <= 57,
        n > 0 ==> decimal(n)[0] != '0',
        n == 0 ==> decimal(n) == seq!['0'],
    decreases n,
{
    decimal_has_value(n);
    assert forall|i: int| 0 <= i < decimal(n).len() implies 48 <= #[trigger] decimal(n)[i] as int
        <= 57 by {
        assert(is_digit(decimal(n)[i]));
    }
    if n >= 10 {
        decimal_is_shortest(n / 10);
    }
}

/// A text of digits alone, with a plus sign in front or without, is the number that the digits
/// stand for, where it fits 64 bits, and no number where it does not.
pub proof fn digits_are_a_number(s: Seq<char>)
    requires
        s.len() > 0,
        forall|i: int| 0 <= i < s.len() ==> 48 <= #[trigger] s[i] as int <= 57,
    ensures
        value_of(s) <= u64::MAX ==> number_of(s) == Some(value_of(s) as u64),
        value_of(s) > u64::MAX ==> number_of(s) is None,
        number_of(seq!['+'] + s) == number_of(s),
{
    assert((seq!['+'] + s).skip(1) =~= s);
    assert(48 <= s[0] as int <= 57);
    assert forall|i: int| 0 <= i < s.len() implies is_digit(#[trigger] s[i]) by {}
}

/// A text without digits, or with anything but digits behind the place where a plus sign may
/// stand, is no number.
pub proof fn other_texts_are_no_number(s: Seq<char>, i: int)
    requires
        s.len() == 0 || s == seq!['+'] || (0 <= i < s.len() && !(48 <= s[i] as int <= 57) && !(i == 0
            && s[i] == '+')),
    ensures
        number_of(s) is None,
{
    if s.len() > 0 && s != seq!['+'] {
        let t = without_plus(s);
        if s[0] == '+' {
            assert(t[i - 1] == s[i]);
            assert(!is_digit(t[i - 1]));
        } else {
            assert(!is_digit(t[i]));
        }
    }
}

/// The scheme in front of a text does not matter, however often it stands there, and a text
/// that does not start with it stays as it is.
pub proof fn scheme_in_front_is_dropped(s: Seq<char>)
    ensures
        without_scheme("servo://"@ + s) == without_scheme(s),
        s.len() < 8 || s.take(8) != "servo://"@ ==> without_scheme(s) == s,
{
    scheme_is_its_text();
    let longer = scheme() + s;
    assert(longer.take(8) =~= scheme());
    assert(longer.skip(8) =~= s);
}

} // verus!
