//! Decimal numbers as text.

use vstd::prelude::*;
use vstd::string::*;

verus! {

/// The decimal digit `d` as a character.
pub open spec fn digit(d: int) -> char
    recommends
        0 <= d <= 9,
{
    ('0' as int + d) as char
}

/// `n` in decimal, without leading zeros.
pub open spec fn decimal(n: nat) -> Seq<char>
    decreases n,
{
    if n < 10 {
        seq![digit(n as int)]
    } else {
        decimal(n / 10).push(digit((n % 10) as int))
    }
}

/// `i` in decimal, with a minus sign in front where it is negative.
pub open spec fn integer(i: int) -> Seq<char> {
    if i < 0 {
        "-"@ + decimal((-i) as nat)
    } else {
        decimal(i as nat)
    }
}

/// The number that a text of decimal digits stands for.
pub open spec fn value(s: Seq<char>) -> int
    decreases s.len(),
{
    if s.len() == 0 {
        0
    } else {
        value(s.drop_last()) * 10 + (s.last() as int - '0' as int)
    }
}

/// The text of one decimal digit.
pub fn digit_text(d: u8) -> (r: &'static str)
    requires
        d <= 9,
    ensures
        r@ == seq![digit(d as int)],
        r@.len() == 1,
        r@[0] as int == '0' as int + d,
{
    proof {
        reveal_strlit("0");
        reveal_strlit("1");
        reveal_strlit("2");
        reveal_strlit("3");
        reveal_strlit("4");
        reveal_strlit("5");
        reveal_strlit("6");
        reveal_strlit("7");
        reveal_strlit("8");
        reveal_strlit("9");
    }
    match d {
        0 => "0",
        1 => "1",
        2 => "2",
        3 => "3",
        4 => "4",
        5 => "5",
        6 => "6",
        7 => "7",
        8 => "8",
        _ => "9",
    }
}

/// `n` in decimal.
pub fn decimal_text(n: u32) -> (r: String)
    ensures
        r@ == decimal(n as nat),
    decreases n,
{
    if n < 10 {
        digit_text(n as u8).to_owned()
    } else {
        let mut s = decimal_text(n / 10);
        s.append(digit_text((n % 10) as u8));
        assert(s@ =~= decimal(n as nat));
        s
    }
}

/// `i` in decimal.
pub fn integer_text(i: i32) -> (r: String)
    ensures
        r@ == integer(i as int),
{
    if i < 0 {
        let mut s = "-".to_owned();
        s.append(decimal_text((-(i as i64)) as u32).as_str());
        s
    } else {
        decimal_text(i as u32)
    }
}

/// A decimal text consists of digits, starts with no zero unless it is `0`
/// itself, and stands for the number it was made from.
pub proof fn law_decimal_reads_back(n: nat)
    ensures
        value(decimal(n)) == n,
        decimal(n).len() > 0,
        forall|i: int| 0 <= i < decimal(n).len() ==> '0' <= #[trigger] decimal(n)[i] <= '9',
        n > 0 ==> decimal(n)[0] != '0',
    decreases n,
{
    if n < 10 {
        let s = seq![digit(n as int)];
        assert(s.drop_last() =~= Seq::<char>::empty());
        assert(value(s.drop_last()) == 0);
    } else {
        law_decimal_reads_back(n / 10);
        assert(decimal(n).drop_last() =~= decimal(n / 10));
    }
}

/// A digit behind a number is one more character behind its text: the text of
/// `10 * n + d` is that of `n`, and then `d`.
pub proof fn law_one_more_digit(n: nat, d: nat)
    requires
        d < 10,
    ensures
        decimal(d).len() == 1,
        decimal(d)[0] as int == '0' as int + d,
        n > 0 ==> decimal(10 * n + d).len() == decimal(n).len() + 1,
        n > 0 ==> decimal(10 * n + d).drop_last() == decimal(n),
        n > 0 ==> decimal(10 * n + d).last() as int == '0' as int + d,
{
    if n > 0 {
        assert((10 * n + d) / 10 == n);
        assert((10 * n + d) % 10 == d);
        assert(decimal(10 * n + d).drop_last() =~= decimal(n));
    }
}

/// A positive integer is written as its digits alone, and its negative as the
/// same text behind a minus sign.
pub proof fn law_negative_has_a_minus_sign(n: nat)
    ensures
        integer(n as int) == decimal(n),
        n > 0 ==> integer(-n) == seq!['-'] + integer(n as int),
{
    reveal_strlit("-");
    assert("-"@ =~= seq!['-']);
}

/// Two integers with the same text are equal.
pub proof fn law_integer_text_is_unique(i: int, j: int)
    requires
        integer(i) == integer(j),
    ensures
        i == j,
{
    reveal_strlit("-");
    law_decimal_reads_back((if i < 0 { -i } else { i }) as nat);
    law_decimal_reads_back((if j < 0 { -j } else { j }) as nat);
    assert(integer(i)[0] == integer(j)[0]);
    if i < 0 {
        assert(integer(i).drop_first() =~= decimal((-i) as nat));
        assert(integer(j)[0] == '-');
        assert(j < 0);
        assert(integer(j).drop_first() =~= decimal((-j) as nat));
    } else {
        assert('0' <= decimal(i as nat)[0]);
        assert(j >= 0);
    }
}

} // verus!
