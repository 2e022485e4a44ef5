//! Text helpers: decimal rendering of integers, white space, ASCII-case
//! comparison, and splitting at the first space.

use vstd::prelude::*;

verus! {

/// The ASCII digit for `d` (meaningful for `0 <= d < 10`).
pub open spec fn digit_char(d: int) -> char {
    if d == 0 { '0' }
    else if d == 1 { '1' }
    else if d == 2 { '2' }
    else if d == 3 { '3' }
    else if d == 4 { '4' }
    else if d == 5 { '5' }
    else if d == 6 { '6' }
    else if d == 7 { '7' }
    else if d == 8 { '8' }
    else { '9' }
}

/// Decimal digits of `n`, most significant first, without leading zeros.
pub open spec fn decimal(n: nat) -> Seq<char>
    decreases n,
{
    if n < 10 {
        seq![digit_char(n as int)]
    } else {
        decimal(n / 10).push(digit_char((n % 10) as int))
    }
}

fn digit_str(d: u64) -> (s: &'static str)
    requires
        d < 10,
    ensures
        s@ == seq![digit_char(d as int)],
{
    proof {
        reveal_strlit("0");
        reveal_strlit("1");
        reveal_strlit("2");
        reveal_strlit("3");
        reveal_strlit("4");
        reveal_strlit("5");
        reveal_strlit("6");
        reveal_strlit("7");
        reveal_strlit("8");
        reveal_strlit("9");
    }
    match d {
        0 => "0",
        1 => "1",
        2 => "2",
        3 => "3",
        4 => "4",
        5 => "5",
        6 => "6",
        7 => "7",
        8 => "8",
        _ => "9",
    }
}

/// Renders `n` in decimal, as `Display` does for unsigned integers.
pub fn decimal_string(n: u64) -> (s: String)
    ensures
        s@ == decimal(n as nat),
    decreases n,
{
    if n < 10 {
        String::from_str(digit_str(n))
    } else {
        let mut s = decimal_string(n / 10);
        s.append(digit_str(n % 10));
        s
    }
}

} // verus!

verus! {

/// Unicode `White_Space` code points: U+0009..=U+000D, U+0020, U+0085,
/// U+00A0, U+1680, U+2000..=U+200A, U+2028, U+2029, U+202F, U+205F, U+3000.
pub open spec fn is_white_space(c: char) -> bool {
    let v = c as u32;
    ||| 0x09 <= v <= 0x0d
    ||| v == 0x20
    ||| v == 0x85
    ||| v == 0xa0
    ||| v == 0x1680
    ||| 0x2000 <= v <= 0x200a
    ||| v == 0x2028
    ||| v == 0x2029
    ||| v == 0x202f
    ||| v == 0x205f
    ||| v == 0x3000
}

/// A text is blank when every character is white space (the empty text too).
pub open spec fn is_blank(s: Seq<char>) -> bool {
    forall|i: int| 0 <= i < s.len() ==> is_white_space(#[trigger] s[i])
}

/// Whether `c` is white space, as `char::is_whitespace` decides.
pub fn char_is_whitespace(c: char) -> (b: bool)
    ensures
        b == is_white_space(c),
{
    let v = c as u32;
    (0x09 <= v && v <= 0x0d) || v == 0x20 || v == 0x85 || v == 0xa0 || v == 0x1680 || (0x2000 <= v
        && v <= 0x200a) || v == 0x2028 || v == 0x2029 || v == 0x202f || v == 0x205f || v == 0x3000
}

/// Whether `s` holds nothing but white space, that is whether `s.trim()` is empty.
pub fn is_blank_str(s: &str) -> (b: bool)
    ensures
        b == is_blank(s@),
{
    broadcast use vstd::string::group_string_axioms;
    for c in it: s.chars()
        invariant
            it.seq() == s@,
            forall|i: int| 0 <= i < it.index() ==> is_white_space(#[trigger] s@[i]),
    {
        if !char_is_whitespace(c) {
            return false;
        }
    }
    true
}

} // verus!

verus! {

/// The characters of `s`, in order.
pub fn chars_of(s: &str) -> (v: Vec<char>)
    ensures
        v@ == s@,
{
    broadcast use vstd::string::group_string_axioms;
    let mut v: Vec<char> = Vec::new();
    for c in it: s.chars()
        invariant
            it.seq() == s@,
            v@ == s@.take(it.index()),
    {
        v.push(c);
    }
    v
}

/// The code of `c` with an ASCII capital letter mapped to its small letter.
pub open spec fn lower_code(c: char) -> u32 {
    if 65 <= (c as u32) <= 90 {
        ((c as u32) + 32) as u32
    } else {
        c as u32
    }
}

/// Whether `a` and `b` are equal once ASCII letters are taken without case,
/// as `str::eq_ignore_ascii_case` decides.
pub open spec fn eq_ignoring_ascii_case(a: Seq<char>, b: Seq<char>) -> bool {
    &&& a.len() == b.len()
    &&& forall|i: int| 0 <= i < a.len() ==> lower_code(#[trigger] a[i]) == lower_code(b[i])
}

fn lower_code_of(c: char) -> (code: u32)
    ensures
        code == lower_code(c),
{
    let v = c as u32;
    if 65 <= v && v <= 90 {
        v + 32
    } else {
        v
    }
}

/// Compares two texts, taking ASCII letters without case.
pub fn eq_ignore_ascii_case(a: &str, b: &str) -> (eq: bool)
    ensures
        eq == eq_ignoring_ascii_case(a@, b@),
{
    let va = chars_of(a);
    let vb = chars_of(b);
    if va.len() != vb.len() {
        return false;
    }
    let n = va.len();
    for i in 0..n
        invariant
            n == va@.len(),
            n == vb@.len(),
            va@ == a@,
            vb@ == b@,
            forall|j: int| 0 <= j < i ==> lower_code(#[trigger] a@[j]) == lower_code(b@[j]),
    {
        if lower_code_of(va[i]) != lower_code_of(vb[i]) {
            return false;
        }
    }
    true
}

/// Whether two texts are equal.
pub fn str_eq(a: &str, b: &str) -> (eq: bool)
    ensures
        eq == (a@ == b@),
{
    let x = a.to_owned();
    let y = b.to_owned();
    x == y
}

/// Whether position `i` of `s` holds its first space.
pub open spec fn is_first_space(s: Seq<char>, i: int) -> bool {
    &&& 0 <= i < s.len()
    &&& s[i] == ' '
    &&& forall|j: int| 0 <= j < i ==> #[trigger] s[j] != ' '
}

/// The part of `s` before its first space, or all of `s` when it has none:
/// the first item of `s.splitn(2, ' ')`.
pub open spec fn before_first_space(s: Seq<char>) -> Seq<char> {
    if exists|i: int| is_first_space(s, i) {
        s.take(choose|i: int| is_first_space(s, i))
    } else {
        s
    }
}

/// The part of `s` after its first space, or nothing when it has none: the
/// second item of `s.splitn(2, ' ')`, empty when that is missing.
pub open spec fn after_first_space(s: Seq<char>) -> Seq<char> {
    if exists|i: int| is_first_space(s, i) {
        s.skip((choose|i: int| is_first_space(s, i)) + 1)
    } else {
        seq![]
    }
}

/// Splits `s` at its first space into the part before it and the part after
/// it; without a space, into `s` and the empty text.
pub fn split_at_first_space(s: &str) -> (parts: (&str, &str))
    ensures
        parts.0@ == before_first_space(s@),
        parts.1@ == after_first_space(s@),
{
    let v = chars_of(s);
    let n = v.len();
    let mut i: usize = 0;
    while i < n
        invariant
            n == v@.len(),
            v@ == s@,
            i <= n,
            forall|j: int| 0 <= j < i ==> #[trigger] s@[j] != ' ',
        decreases n - i,
    {
        if v[i] == ' ' {
            assert(is_first_space(s@, i as int));
            proof {
                let k = choose|k: int| is_first_space(s@, k);
                assert(k == i) by {
                    if k < i {
                        assert(s@[k] != ' ');
                    } else if k > i {
                        assert(s@[i as int] != ' ');
                    }
                }
            }
            return (s.substring_char(0, i), s.substring_char(i + 1, n));
        }
        i = i + 1;
    }
    proof {
        reveal_strlit("");
        assert(!exists|k: int| is_first_space(s@, k)) by {
            if exists|k: int| is_first_space(s@, k) {
                let k = choose|k: int| is_first_space(s@, k);
                assert(s@[k] != ' ');
            }
        }
    }
    (s, "")
}

} // verus!

verus! {

/// `n` with its sign always shown, as `{:+}` renders an integer: `+0`,
/// `+50`, `-50`.
pub open spec fn signed_decimal(n: int) -> Seq<char> {
    if n >= 0 {
        seq!['+'] + decimal(n as nat)
    } else {
        seq!['-'] + decimal((-n) as nat)
    }
}

/// Renders `n` with an explicit sign.
pub fn signed_decimal_string(n: i32) -> (s: String)
    ensures
        s@ == signed_decimal(n as int),
{
    proof {
        reveal_strlit("+");
        reveal_strlit("-");
    }
    let wide: i64 = n as i64;
    if wide >= 0 {
        let mut s = String::from_str("+");
        s.append(decimal_string(wide as u64).as_str());
        s
    } else {
        let mut s = String::from_str("-");
        s.append(decimal_string((-wide) as u64).as_str());
        s
    }
}

/// Whether `c` is an ASCII digit.
pub open spec fn is_digit(c: char) -> bool {
    '0' <= c <= '9'
}

/// A decimal rendering is a non-empty run of ASCII digits.
pub proof fn decimal_is_digits(n: nat)
    ensures
        decimal(n).len() >= 1,
        forall|i: int| 0 <= i < decimal(n).len() ==> is_digit(#[trigger] decimal(n)[i]),
    decreases n,
{
    if n >= 10 {
        decimal_is_digits(n / 10);
    }
}

/// The value of an ASCII digit.
pub open spec fn digit_value(c: char) -> int {
    (c as u32) - ('0' as u32)
}

/// The number that a run of ASCII digits denotes in base ten, read from
/// the most significant digit.
pub open spec fn digits_value(digits: Seq<char>) -> int
    decreases digits.len(),
{
    if digits.len() == 0 {
        0
    } else {
        digits_value(digits.drop_last()) * 10 + digit_value(digits.last())
    }
}

/// The decimal rendering of `n` is the standard one: ASCII digits that read
/// back as `n`, with no leading zero.
pub proof fn decimal_reads_back(n: nat)
    ensures
        decimal(n).len() >= 1,
        forall|i: int| 0 <= i < decimal(n).len() ==> is_digit(#[trigger] decimal(n)[i]),
        digits_value(decimal(n)) == n,
        decimal(n).len() > 1 ==> decimal(n)[0] != '0',
    decreases n,
{
    decimal_is_digits(n);
    if n < 10 {
        let d = decimal(n);
        assert(d.drop_last() =~= Seq::<char>::empty());
        assert(digits_value(Seq::<char>::empty()) == 0);
        assert(d.last() == digit_char(n as int));
        assert(digit_value(digit_char(n as int)) == n);
        assert(digits_value(d) == digits_value(d.drop_last()) * 10 + digit_value(d.last()));
    } else {
        decimal_reads_back(n / 10);
        let d = decimal(n);
        assert(d.drop_last() =~= decimal(n / 10));
        assert(digit_value(digit_char((n % 10) as int)) == n % 10);
        assert(d.last() == digit_char((n % 10) as int));
        assert(digits_value(d) == digits_value(d.drop_last()) * 10 + digit_value(d.last()));
        assert((n / 10) * 10 + n % 10 == n);
        assert(d[0] == decimal(n / 10)[0]);
        if n / 10 < 10 {
            assert(decimal(n / 10)[0] == digit_char((n / 10) as int));
        } else {
            decimal_is_digits(n / 100);
            assert(decimal(n / 10).len() > 1);
        }
    }
}

/// A signed rendering is its sign followed by the decimal rendering of the
/// magnitude: `+` exactly for numbers that are not negative.
pub proof fn signed_decimal_reads_back(n: int)
    ensures
        signed_decimal(n).len() >= 2,
        (signed_decimal(n)[0] == '+') == (n >= 0),
        signed_decimal(n)[0] == '+' || signed_decimal(n)[0] == '-',
        digits_value(signed_decimal(n).drop_first()) == if n >= 0 { n } else { -n },
        forall|i: int| 1 <= i < signed_decimal(n).len() ==> is_digit(#[trigger] signed_decimal(n)[i]),
{
    let m: nat = if n >= 0 { n as nat } else { (-n) as nat };
    decimal_reads_back(m);
    assert(signed_decimal(n).drop_first() =~= decimal(m));
    assert forall|i: int| 1 <= i < signed_decimal(n).len() implies is_digit(#[trigger] signed_decimal(n)[i]) by {
        assert(signed_decimal(n)[i] == decimal(m)[i - 1]);
    }
}

/// The capital form of an ASCII small letter; other characters stay.
pub open spec fn ascii_upper(c: char) -> char {
    if 'a' <= c <= 'z' {
        ((c as u32) - 32) as char
    } else {
        c
    }
}

/// Case folding takes exactly the two cases of an ASCII letter together:
/// two characters fold alike when they are equal, or when one is an ASCII
/// capital letter and the other the small letter 32 code points above it.
pub proof fn case_folding_pairs_letters(c: char, d: char)
    ensures
        (lower_code(c) == lower_code(d)) <==> (c == d || ('A' <= c <= 'Z' && d as u32 == (c as u32)
            + 32) || ('A' <= d <= 'Z' && c as u32 == (d as u32) + 32)),
{
}

/// A text matches itself with all its ASCII letters turned to capitals,
/// when ASCII case is ignored.
pub proof fn upper_case_matches_ignoring_case(s: Seq<char>)
    ensures
        eq_ignoring_ascii_case(s.map_values(|c: char| ascii_upper(c)), s),
{
    let u = s.map_values(|c: char| ascii_upper(c));
    assert forall|i: int| 0 <= i < u.len() implies lower_code(#[trigger] u[i]) == lower_code(s[i]) by {
        case_folding_pairs_letters(u[i], s[i]);
    }
}

} // verus!
