//! The supply voltage, as it is published.

use crate::text::{decimal, decimal_text, digit, digit_text, law_decimal_reads_back, value};
use vstd::prelude::*;
use vstd::string::*;

verus! {

/// The supply voltage in hundredths of a volt, where the sampled pin is at
/// `millivolts`: it sees half of the supply.
pub open spec fn hundredths(millivolts: nat) -> nat {
    (millivolts + 2) / 5
}

/// Volts to two places, out of hundredths of a volt.
pub open spec fn two_places(hundredths: nat) -> Seq<char> {
    decimal(hundredths / 100) + "."@ + seq![
        digit((hundredths / 10 % 10) as int),
        digit((hundredths % 10) as int),
    ]
}

/// The supply voltage in volts, to two places, where the sampled pin is at
/// `millivolts`.
pub fn volts_text(millivolts: u16) -> (r: String)
    ensures
        r@ == two_places(hundredths(millivolts as nat)),
{
    let h: u32 = (millivolts as u32 + 2) / 5;
    let mut s = decimal_text(h / 100);
    s.append(".");
    s.append(digit_text((h / 10 % 10) as u8));
    s.append(digit_text((h % 10) as u8));
    assert(s@ =~= two_places(hundredths(millivolts as nat)));
    s
}

/// What is published is nearest to twice the sampled voltage: no other number of
/// hundredths of a volt is as near.
pub proof fn law_voltage_is_nearest(millivolts: nat, other: nat)
    requires
        other != hundredths(millivolts),
    ensures
        ({
            let exact = 2 * millivolts;
            let off = 10 * hundredths(millivolts) - exact;
            let other_off = 10 * other - exact;
            let distance = if off < 0 { -off } else { off };
            let other_distance = if other_off < 0 { -other_off } else { other_off };
            distance < other_distance
        }),
{
}

/// The digits that are published stand for the hundredths of a volt.
pub proof fn law_voltage_text_reads_back(h: nat)
    ensures
        ({
            let text = two_places(h);
            let point = text.len() - 3;
            &&& text.len() >= 4
            &&& text[point] == '.'
            &&& text.take(point) == decimal(h / 100)
            &&& text[point + 1] as int == '0' as int + h / 10 % 10
            &&& text[point + 2] as int == '0' as int + h % 10
            &&& value(text.take(point)) * 100 + value(text.skip(point + 1)) == h
        }),
{
    let text = two_places(h);
    let point = text.len() - 3;
    let tail = seq![digit((h / 10 % 10) as int), digit((h % 10) as int)];
    reveal_strlit(".");
    law_decimal_reads_back(h / 100);
    assert(text.take(point) =~= decimal(h / 100));
    assert(text.skip(point + 1) =~= tail);
    reveal_with_fuel(value, 3);
    assert(tail.drop_last() =~= seq![digit((h / 10 % 10) as int)]);
    assert(tail.drop_last().drop_last() =~= Seq::<char>::empty());
}

/// A higher sample never gives a lower voltage.
pub proof fn law_voltage_is_monotonic(a: nat, b: nat)
    requires
        a <= b,
    ensures
        hundredths(a) <= hundredths(b),
{
}

} // verus!
