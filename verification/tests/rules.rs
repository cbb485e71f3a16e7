use renewal_watcher::events::find_event;
use renewal_watcher::records::RenewabilityEvent;
use renewal_watcher::rules::{enough_funds, in_window};

#[test]
fn funds_must_cover_price_and_deposit() {
    assert!(enough_funds(10000, 500, 1));
    assert!(enough_funds(501, 500, 1));
    assert!(!enough_funds(500, 500, 1));
    assert!(!enough_funds(400, 500, 1));
    assert!(enough_funds(0, 0, 0));
    assert!(!enough_funds(0, 0, 1));
}

#[test]
fn funds_rule_does_not_wrap() {
    assert!(!enough_funds(u128::MAX, u128::MAX, 1));
    assert!(!enough_funds(5, u128::MAX, u128::MAX));
    assert!(enough_funds(u128::MAX, u128::MAX - 1, 1));
    assert!(enough_funds(u128::MAX, u128::MAX, 0));
}

#[test]
fn window_includes_its_last_block() {
    assert!(in_window(205, 205, 10));
    assert!(in_window(214, 205, 10));
    assert!(in_window(215, 205, 10));
    assert!(!in_window(216, 205, 10));
    assert!(in_window(7, 7, 0));
    assert!(!in_window(8, 7, 0));
    assert!(in_window(3, 205, 10));
}

#[test]
fn window_rule_does_not_wrap() {
    assert!(in_window(u32::MAX, u32::MAX, 1));
    assert!(in_window(5, u32::MAX, 10));
    assert!(in_window(u32::MAX, 1, u32::MAX));
    assert!(!in_window(u32::MAX, 0, u32::MAX - 1));
}

#[test]
fn find_event_takes_the_first_match() {
    let events = vec![
        RenewabilityEvent { core: 2, price: 1, begin: 1 },
        RenewabilityEvent { core: 5, price: 20, begin: 30 },
        RenewabilityEvent { core: 5, price: 21, begin: 31 },
    ];
    assert_eq!(find_event(&events, 5), Some(RenewabilityEvent { core: 5, price: 20, begin: 30 }));
    assert_eq!(find_event(&events, 2), Some(RenewabilityEvent { core: 2, price: 1, begin: 1 }));
    assert_eq!(find_event(&events, 3), None);
    assert_eq!(find_event(&Vec::new(), 0), None);
}
