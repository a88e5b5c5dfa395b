//! Verified rendering of integers as decimal text.

use vstd::prelude::*;

verus! {

/// The decimal digit character for a value below ten.
pub open spec fn spec_digit_char(d: int) -> char {
    if d == 0 {
        '0'
    } else if d == 1 {
        '1'
    } else if d == 2 {
        '2'
    } else if d == 3 {
        '3'
    } else if d == 4 {
        '4'
    } else if d == 5 {
        '5'
    } else if d == 6 {
        '6'
    } else if d == 7 {
        '7'
    } else if d == 8 {
        '8'
    } else {
        '9'
    }
}

/// The decimal digits of a non-negative integer, most significant first.
pub open spec fn spec_nat_chars(n: nat) -> Seq<char>
    decreases n,
{
    if n < 10 {
        seq![spec_digit_char(n as int)]
    } else {
        spec_nat_chars(n / 10) + seq![spec_digit_char((n % 10) as int)]
    }
}

/// The decimal rendering of an integer, with a leading minus sign
/// when it is negative.
pub open spec fn spec_int_chars(n: int) -> Seq<char> {
    if n < 0 {
        seq!['-'] + spec_nat_chars((-n) as nat)
    } else {
        spec_nat_chars(n as nat)
    }
}

/// Whether a character is a decimal digit.
pub open spec fn spec_is_digit(c: char) -> bool {
    c == '0' || c == '1' || c == '2' || c == '3' || c == '4' || c == '5' || c == '6' || c == '7'
        || c == '8' || c == '9'
}

/// The numeric value of a decimal digit character, if it is one.
pub open spec fn spec_digit_value(c: char) -> Option<int> {
    if c == '0' {
        Some(0)
    } else if c == '1' {
        Some(1)
    } else if c == '2' {
        Some(2)
    } else if c == '3' {
        Some(3)
    } else if c == '4' {
        Some(4)
    } else if c == '5' {
        Some(5)
    } else if c == '6' {
        Some(6)
    } else if c == '7' {
        Some(7)
    } else if c == '8' {
        Some(8)
    } else if c == '9' {
        Some(9)
    } else {
        None
    }
}

/// Whether a character sequence holds no space.
pub open spec fn spec_no_space(s: Seq<char>) -> bool {
    forall|i: int| 0 <= i < s.len() ==> s[i] != ' '
}

/// Splits a character sequence at every space. The result always holds at
/// least one (possibly empty) token.
pub open spec fn spec_split_spaces(s: Seq<char>) -> Seq<Seq<char>>
    decreases s.len(),
{
    if s.len() == 0 {
        seq![Seq::<char>::empty()]
    } else if s[0] == ' ' {
        seq![Seq::<char>::empty()] + spec_split_spaces(s.subrange(1, s.len() as int))
    } else {
        let rest = spec_split_spaces(s.subrange(1, s.len() as int));
        seq![seq![s[0]] + rest[0]] + rest.subrange(1, rest.len() as int)
    }
}

/// Reads a run of decimal digits as a non-negative integer; anything else
/// is no number.
pub open spec fn spec_parse_digits(s: Seq<char>) -> Option<int>
    decreases s.len(),
{
    if s.len() == 0 {
        None
    } else if s.len() == 1 {
        spec_digit_value(s[0])
    } else {
        let high = spec_parse_digits(s.subrange(0, s.len() - 1));
        let low = spec_digit_value(s[s.len() - 1]);
        if high is Some && low is Some {
            Some(high.unwrap() * 10 + low.unwrap())
        } else {
            None
        }
    }
}

/// Reads an optionally minus-signed run of decimal digits as an integer.
pub open spec fn spec_parse_int(s: Seq<char>) -> Option<int> {
    if s.len() >= 2 && s[0] == '-' {
        match spec_parse_digits(s.subrange(1, s.len() as int)) {
            Some(v) => Some(-v),
            None => None,
        }
    } else {
        spec_parse_digits(s)
    }
}

/// The digits of a non-negative integer are at least one character.
proof fn lemma_nat_chars_len(n: nat)
    ensures
        spec_nat_chars(n).len() >= 1,
    decreases n,
{
    if n >= 10 {
        lemma_nat_chars_len(n / 10);
    }
}

/// Every character of a rendered non-negative integer is a decimal digit.
proof fn lemma_nat_chars_digits(n: nat)
    ensures
        forall|i: int|
            0 <= i < spec_nat_chars(n).len() ==> spec_is_digit(#[trigger] spec_nat_chars(n)[i]),
    decreases n,
{
    if n < 10 {
        assert(spec_nat_chars(n) =~= seq![spec_digit_char(n as int)]);
    } else {
        lemma_nat_chars_digits(n / 10);
        assert forall|i: int| 0 <= i < spec_nat_chars(n).len() implies spec_is_digit(
            #[trigger] spec_nat_chars(n)[i],
        ) by {
            if i < spec_nat_chars(n / 10).len() {
                assert(spec_nat_chars(n)[i] == spec_nat_chars(n / 10)[i]);
            } else {
                assert(spec_nat_chars(n)[i] == spec_digit_char((n % 10) as int));
            }
        }
    }
}

/// A rendered integer holds no space.
pub proof fn lemma_int_chars_no_space(v: int)
    ensures
        spec_no_space(spec_int_chars(v)),
{
    if v < 0 {
        lemma_nat_chars_digits((-v) as nat);
        assert forall|i: int| 0 <= i < spec_int_chars(v).len() implies spec_int_chars(v)[i]
            != ' ' by {
            if i >= 1 {
                assert(spec_int_chars(v)[i] == spec_nat_chars((-v) as nat)[i - 1]);
            }
        }
    } else {
        lemma_nat_chars_digits(v as nat);
    }
}

/// Splitting a sequence without spaces is that sequence as one token.
pub proof fn lemma_split_whole(x: Seq<char>)
    requires
        spec_no_space(x),
    ensures
        spec_split_spaces(x) == seq![x],
    decreases x.len(),
{
    if x.len() == 0 {
        assert(spec_split_spaces(x) =~~= seq![x]);
    } else {
        let xr = x.subrange(1, x.len() as int);
        lemma_split_whole(xr);
        assert(seq![x[0]] + xr =~= x);
        assert(spec_split_spaces(x) =~~= seq![x]);
    }
}

/// Splitting `x`, a space, then `y` — with no space inside `x` — yields
/// `x` as the first token and the split of `y` after it.
pub proof fn lemma_split_prefix(x: Seq<char>, y: Seq<char>)
    requires
        spec_no_space(x),
    ensures
        spec_split_spaces(x + seq![' '] + y) == seq![x] + spec_split_spaces(y),
    decreases x.len(),
{
    let s = x + seq![' '] + y;
    if x.len() == 0 {
        assert(s =~= seq![' '] + y);
        assert(s.subrange(1, s.len() as int) =~= y);
        assert(spec_split_spaces(s) =~~= seq![x] + spec_split_spaces(y));
    } else {
        let xr = x.subrange(1, x.len() as int);
        assert(s[0] == x[0]);
        assert(s.subrange(1, s.len() as int) =~= xr + seq![' '] + y);
        lemma_split_prefix(xr, y);
        let rest = spec_split_spaces(s.subrange(1, s.len() as int));
        assert(rest == seq![xr] + spec_split_spaces(y));
        assert(rest[0] == xr);
        assert(seq![s[0]] + xr =~= x);
        assert(rest.subrange(1, rest.len() as int) =~= spec_split_spaces(y));
        assert(spec_split_spaces(s) =~~= seq![x] + spec_split_spaces(y));
    }
}

/// Reading back the rendered digits of a non-negative integer yields it.
pub proof fn lemma_parse_digits_of_nat(n: nat)
    ensures
        spec_parse_digits(spec_nat_chars(n)) == Some(n as int),
    decreases n,
{
    if n < 10 {
        assert(spec_nat_chars(n) =~= seq![spec_digit_char(n as int)]);
    } else {
        lemma_parse_digits_of_nat(n / 10);
        lemma_nat_chars_len(n / 10);
        let s = spec_nat_chars(n);
        assert(s =~= spec_nat_chars(n / 10) + seq![spec_digit_char((n % 10) as int)]);
        assert(s.subrange(0, s.len() - 1) =~= spec_nat_chars(n / 10));
        assert(s[s.len() - 1] == spec_digit_char((n % 10) as int));
        assert(spec_parse_digits(s) == Some((n / 10) as int * 10 + (n % 10) as int));
        vstd::arithmetic::div_mod::lemma_fundamental_div_mod(n as int, 10);
    }
}

/// Reading back a rendered integer yields it: the parser is the inverse of
/// the renderer.
pub proof fn lemma_parse_int_of_chars(v: int)
    ensures
        spec_parse_int(spec_int_chars(v)) == Some(v),
{
    if v < 0 {
        let s = spec_int_chars(v);
        lemma_nat_chars_len((-v) as nat);
        assert(s[0] == '-');
        assert(s.subrange(1, s.len() as int) =~= spec_nat_chars((-v) as nat));
        lemma_parse_digits_of_nat((-v) as nat);
    } else {
        lemma_parse_digits_of_nat(v as nat);
        lemma_nat_chars_digits(v as nat);
        lemma_nat_chars_len(v as nat);
        let s = spec_int_chars(v);
        assert(spec_is_digit(s[0]));
        assert(s[0] != '-');
    }
}

fn digit_str(d: u32) -> (s: &'static str)
    requires
        d < 10,
    ensures
        s@ == seq![spec_digit_char(d as int)],
{
    let s = match d {
        0 => "0",
        1 => "1",
        2 => "2",
        3 => "3",
        4 => "4",
        5 => "5",
        6 => "6",
        7 => "7",
        8 => "8",
        _ => "9",
    };
    proof {
        reveal_strlit("0");
        reveal_strlit("1");
        reveal_strlit("2");
        reveal_strlit("3");
        reveal_strlit("4");
        reveal_strlit("5");
        reveal_strlit("6");
        reveal_strlit("7");
        reveal_strlit("8");
        reveal_strlit("9");
        assert(s@ =~= seq![spec_digit_char(d as int)]);
    }
    s
}

fn u32_to_string(n: u32) -> (s: String)
    ensures
        s@ == spec_nat_chars(n as nat),
    decreases n,
{
    if n < 10 {
        String::from_str(digit_str(n))
    } else {
        let mut s = u32_to_string(n / 10);
        s.append(digit_str(n % 10));
        proof {
            assert(s@ =~= spec_nat_chars(n as nat));
        }
        s
    }
}

/// Renders an integer as decimal text, exactly as the view
/// `spec_int_chars` describes.
pub fn int_to_string(v: i32) -> (s: String)
    ensures
        s@ == spec_int_chars(v as int),
{
    if v >= 0 {
        u32_to_string(v as u32)
    } else {
        let magnitude: u32 = (-(v as i64)) as u32;
        assert(magnitude as nat == (-(v as int)) as nat);
        let mut s = String::from_str("-");
        proof {
            reveal_strlit("-");
            assert(s@ =~= seq!['-']);
        }
        s.append(u32_to_string(magnitude).as_str());
        proof {
            assert(s@ =~= spec_int_chars(v as int));
        }
        s
    }
}

} // verus!
