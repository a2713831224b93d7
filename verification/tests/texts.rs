use credit_defense::components::{DayText, MoneyText, NoticeKind};
use credit_defense::text::{day_text, handle_update_money_text, notice_text, write_decimal, write_signed};

fn decimal(n: u64) -> String {
    let mut text = String::new();
    write_decimal(&mut text, n);
    text
}

fn signed(v: i64) -> String {
    let mut text = String::new();
    write_signed(&mut text, v);
    text
}

#[test]
fn decimal_digits_of_natural_numbers() {
    assert_eq!(decimal(0), "0");
    assert_eq!(decimal(7), "7");
    assert_eq!(decimal(10), "10");
    assert_eq!(decimal(2800), "2800");
    assert_eq!(decimal(1234567890), "1234567890");
    assert_eq!(decimal(u64::MAX), "18446744073709551615");
}

#[test]
fn decimal_digits_agree_with_the_standard_library() {
    for n in (0..100_000u64).step_by(37) {
        assert_eq!(decimal(n), n.to_string());
    }
    for v in [-1i64, -10, -2800, i64::MIN, i64::MAX, 0, 5] {
        assert_eq!(signed(v), v.to_string());
    }
}

#[test]
fn writing_goes_to_the_end_of_the_text() {
    let mut text = String::from("x=");
    write_signed(&mut text, -42);
    write_decimal(&mut text, 7);
    assert_eq!(text, "x=-427");
}

#[test]
fn ledger_as_text() {
    assert_eq!(handle_update_money_text(&MoneyText(0, 2800)), "RENT: $2800 Cash: $0");
    assert_eq!(handle_update_money_text(&MoneyText(150, 3000)), "RENT: $3000 Cash: $150");
    assert_eq!(handle_update_money_text(&MoneyText(-5, -200)), "RENT: $-200 Cash: $-5");
    assert_eq!(
        handle_update_money_text(&MoneyText(i32::MAX, i32::MIN)),
        "RENT: $-2147483648 Cash: $2147483647"
    );
}

#[test]
fn day_as_text() {
    assert_eq!(day_text(&DayText(0)), "Day 0");
    assert_eq!(day_text(&DayText(1)), "Day 1");
    assert_eq!(day_text(&DayText(29)), "Day 29");
}

#[test]
fn notices_as_text() {
    assert_eq!(notice_text(&NoticeKind::Reward(100)), "+$100");
    assert_eq!(notice_text(&NoticeKind::Reward(150)), "+$150");
    assert_eq!(
        notice_text(&NoticeKind::RentUnpaid),
        "NOT ENOUGH MONEY FOR RENT: CREDIT SCORE LOWERED"
    );
    assert_eq!(notice_text(&NoticeKind::GameOver), "CREDIT SCORE TOO LOW: GAME OVER");
}
