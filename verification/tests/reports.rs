use renewal_watcher::report::{push_decimal, Report};

fn numeral(n: u128) -> String {
    let mut out = String::new();
    push_decimal(&mut out, n);
    out
}

#[test]
fn numerals_are_plain_decimal() {
    assert_eq!(numeral(0), "0");
    assert_eq!(numeral(7), "7");
    assert_eq!(numeral(10), "10");
    assert_eq!(numeral(1234567890), "1234567890");
    assert_eq!(numeral(u128::MAX), "340282366920938463463374607431768211455");
    assert_eq!(numeral(u128::MAX), u128::MAX.to_string());
}

#[test]
fn numeral_is_appended_to_what_is_there() {
    let mut out = String::from("core #");
    push_decimal(&mut out, 65535);
    assert_eq!(out, "core #65535");
}

#[test]
fn renewable_line() {
    let report = Report::Renewable { core: 1, price: 500, begin: 200 };
    assert_eq!(report.line(), "Core is renewable from region 200 at the price of 500.");
}

#[test]
fn funds_short_line() {
    let report = Report::FundsShort { free: 400, price: 500 };
    assert_eq!(
        report.line(),
        "Funds not enough to renew the core, please add more funds to your account."
    );
}

#[test]
fn attempting_line() {
    let report = Report::Attempting { core: 42 };
    assert_eq!(report.line(), "In renewal window, attempting to renew core #42.");
}

#[test]
fn renewed_line() {
    let report = Report::Renewed { core: 1, block: 215 };
    assert_eq!(report.line(), "Renewed core #1 on block #215.");
}

#[test]
fn window_missed_line() {
    let report = Report::WindowMissed { core: 1 };
    assert_eq!(
        report.line(),
        "Outside of renewal window. Coretime must be purchased on the open market."
    );
}
