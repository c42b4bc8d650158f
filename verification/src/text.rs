//! Decimal rendering and the text labels the presentation layer shows.

use vstd::prelude::*;
use crate::types::CardView;

verus! {

/// The digit character of `d`.
pub open spec fn spec_digit(d: int) -> char
    recommends
        0 <= d < 10,
{
    if d == 0 {
        '0'
    } else if d == 1 {
        '1'
    } else if d == 2 {
        '2'
    } else if d == 3 {
        '3'
    } else if d == 4 {
        '4'
    } else if d == 5 {
        '5'
    } else if d == 6 {
        '6'
    } else if d == 7 {
        '7'
    } else if d == 8 {
        '8'
    } else {
        '9'
    }
}

/// The decimal digits of `n`, most significant first, with no leading
/// zero but for `n == 0` itself.
pub open spec fn spec_decimal(n: int) -> Seq<char>
    recommends
        n >= 0,
    decreases n,
{
    if n < 10 {
        seq![spec_digit(n)]
    } else {
        spec_decimal(n / 10).push(spec_digit(n % 10))
    }
}

/// The digit character of `d`, as a one-character string.
fn digit_str(d: u64) -> (s: &'static str)
    requires
        d < 10,
    ensures
        s@ == seq![spec_digit(d as int)],
{
    proof {
        reveal_strlit("0");
        reveal_strlit("1");
        reveal_strlit("2");
        reveal_strlit("3");
        reveal_strlit("4");
        reveal_strlit("5");
        reveal_strlit("6");
        reveal_strlit("7");
        reveal_strlit("8");
        reveal_strlit("9");
    }
    match d {
        0 => "0",
        1 => "1",
        2 => "2",
        3 => "3",
        4 => "4",
        5 => "5",
        6 => "6",
        7 => "7",
        8 => "8",
        _ => "9",
    }
}

/// Renders `n` in decimal.
pub fn to_decimal(n: u64) -> (s: String)
    ensures
        s@ == spec_decimal(n as int),
    decreases n,
{
    if n < 10 {
        String::from_str(digit_str(n))
    } else {
        let mut s = to_decimal(n / 10);
        s.append(digit_str(n % 10));
        s
    }
}

/// The text a board slot shows for a summoned card: the card's title,
/// then its attack and health on a second line.
pub open spec fn spec_summon_label(card: CardView) -> Seq<char> {
    card.title@ + seq!['\n'] + spec_decimal(card.attack as int) + seq!['/'] + spec_decimal(
        card.health as int,
    )
}

/// Renders the label a board slot shows for a summoned card.
pub fn summon_label(card: &CardView) -> (s: String)
    ensures
        s@ == spec_summon_label(*card),
{
    proof {
        reveal_strlit("\n");
        reveal_strlit("/");
    }
    let mut s = String::from_str(card.title.as_str());
    s.append("\n");
    let attack = to_decimal(card.attack);
    s.append(attack.as_str());
    s.append("/");
    let health = to_decimal(card.health);
    s.append(health.as_str());
    proof {
        assert(s@ =~= spec_summon_label(*card));
    }
    s
}

} // verus!
