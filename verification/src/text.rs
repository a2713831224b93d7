//! The words on screen: the ledger, the day and the notices, as text.

use vstd::prelude::*;
use crate::components::{DayText, MoneyText, NoticeKind};

verus! {

/// The character of a digit.
pub open spec fn digit_char(digit: int) -> char {
    if digit == 0 {
        '0'
    } else if digit == 1 {
        '1'
    } else if digit == 2 {
        '2'
    } else if digit == 3 {
        '3'
    } else if digit == 4 {
        '4'
    } else if digit == 5 {
        '5'
    } else if digit == 6 {
        '6'
    } else if digit == 7 {
        '7'
    } else if digit == 8 {
        '8'
    } else {
        '9'
    }
}

/// A natural number in decimal digits, without leading zeros.
pub open spec fn decimal(n: nat) -> Seq<char>
    decreases n,
{
    if n < 10 {
        seq![digit_char(n as int)]
    } else {
        decimal(n / 10).push(digit_char((n % 10) as int))
    }
}

/// An integer in decimal digits, with a minus sign before a negative one.
pub open spec fn signed_decimal(v: int) -> Seq<char> {
    if v < 0 {
        seq!['-'] + decimal((-v) as nat)
    } else {
        decimal(v as nat)
    }
}

/// The ledger as text: the rent, then the cash.
pub open spec fn money_label(money: MoneyText) -> Seq<char> {
    "RENT: $"@ + signed_decimal(money.1 as int) + " Cash: $"@ + signed_decimal(money.0 as int)
}

/// The day as text.
pub open spec fn day_label(day: DayText) -> Seq<char> {
    "Day "@ + decimal(day.0 as nat)
}

/// What a notice says.
pub open spec fn notice_label(kind: NoticeKind) -> Seq<char> {
    match kind {
        NoticeKind::Reward(amount) => "+$"@ + signed_decimal(amount as int),
        NoticeKind::RentUnpaid => "NOT ENOUGH MONEY FOR RENT: CREDIT SCORE LOWERED"@,
        NoticeKind::GameOver => "CREDIT SCORE TOO LOW: GAME OVER"@,
    }
}

/// The text of one digit.
fn digit_text(digit: u64) -> (text: &'static str)
    requires
        digit < 10,
    ensures
        text@ == seq![digit_char(digit as int)],
{
    proof {
        reveal_strlit("0");
        reveal_strlit("1");
        reveal_strlit("2");
        reveal_strlit("3");
        reveal_strlit("4");
        reveal_strlit("5");
        reveal_strlit("6");
        reveal_strlit("7");
        reveal_strlit("8");
        reveal_strlit("9");
    }
    let text = if digit == 0 {
        "0"
    } else if digit == 1 {
        "1"
    } else if digit == 2 {
        "2"
    } else if digit == 3 {
        "3"
    } else if digit == 4 {
        "4"
    } else if digit == 5 {
        "5"
    } else if digit == 6 {
        "6"
    } else if digit == 7 {
        "7"
    } else if digit == 8 {
        "8"
    } else {
        "9"
    };
    assert(text@ =~= seq![digit_char(digit as int)]);
    text
}

/// Writes a natural number at the end of the text.
pub fn write_decimal(text: &mut String, n: u64)
    ensures
        final(text)@ == old(text)@ + decimal(n as nat),
    decreases n,
{
    if n >= 10 {
        write_decimal(text, n / 10);
    }
    text.append(digit_text(n % 10));
    assert(text@ =~= old(text)@ + decimal(n as nat));
}

/// Writes an integer at the end of the text.
pub fn write_signed(text: &mut String, v: i64)
    ensures
        final(text)@ == old(text)@ + signed_decimal(v as int),
{
    if v < 0 {
        proof {
            reveal_strlit("-");
        }
        text.append("-");
        assert(text@ =~= old(text)@ + seq!['-']);
        write_decimal(text, (-(v as i128)) as u64);
        assert(text@ =~= old(text)@ + signed_decimal(v as int));
    } else {
        write_decimal(text, v as u64);
    }
}

/// The ledger as text, for the corner of the screen.
pub fn handle_update_money_text(money: &MoneyText) -> (text: String)
    ensures
        text@ == money_label(*money),
{
    let mut text = String::from_str("RENT: $");
    write_signed(&mut text, money.1 as i64);
    text.append(" Cash: $");
    write_signed(&mut text, money.0 as i64);
    assert(text@ =~= money_label(*money));
    text
}

/// The day as text.
pub fn day_text(day: &DayText) -> (text: String)
    ensures
        text@ == day_label(*day),
{
    let mut text = String::from_str("Day ");
    write_decimal(&mut text, day.0);
    text
}

/// What a notice says.
pub fn notice_text(kind: &NoticeKind) -> (text: String)
    ensures
        text@ == notice_label(*kind),
{
    match kind {
        NoticeKind::Reward(amount) => {
            let mut text = String::from_str("+$");
            write_signed(&mut text, *amount as i64);
            text
        },
        NoticeKind::RentUnpaid => String::from_str(
            "NOT ENOUGH MONEY FOR RENT: CREDIT SCORE LOWERED",
        ),
        NoticeKind::GameOver => String::from_str("CREDIT SCORE TOO LOW: GAME OVER"),
    }
}

} // verus!
