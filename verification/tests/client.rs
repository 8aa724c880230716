use aleph_core::client::{
    first_session_in_era, get_current, locked_balances_increased, wait_for, Keys,
};

#[test]
fn keys_parse_from_hex() {
    let hex = format!("{}{}", "01".repeat(32), "ab".repeat(32));
    let keys = Keys::try_from(hex).expect("128 hex digits parse");
    assert_eq!(keys.aura, [0x01u8; 32]);
    assert_eq!(keys.aleph, [0xabu8; 32]);
}

#[test]
fn keys_parse_from_prefixed_hex() {
    let hex = format!("0x{}{}", "ff".repeat(32), "00".repeat(32));
    let keys = Keys::try_from(hex).expect("a 0x prefix is accepted");
    assert_eq!(keys.aura, [0xffu8; 32]);
    assert_eq!(keys.aleph, [0x00u8; 32]);
}

#[test]
fn keys_reject_non_hex() {
    assert!(Keys::try_from("zz".repeat(64)).is_err());
    assert!(Keys::try_from("".to_string()).is_err());
}

#[test]
fn keys_from_bytes_splits_in_order() {
    let mut bytes = vec![0x11u8; 32];
    bytes.extend(vec![0x22u8; 32]);
    let keys = Keys::from_bytes(&bytes);
    assert_eq!(keys.aura, [0x11u8; 32]);
    assert_eq!(keys.aleph, [0x22u8; 32]);
}

#[test]
fn current_session_defaults_to_zero() {
    assert_eq!(get_current(Some(5)), 5);
    assert_eq!(get_current(None), 0);
}

#[test]
fn waiting_ends_when_the_session_is_announced() {
    assert_eq!(wait_for(&vec![1, 2, 3], 2), Some(2));
    assert_eq!(wait_for(&vec![1, 2, 3], 7), None);
    assert_eq!(wait_for(&Vec::new(), 0), None);
}

#[test]
fn eras_are_counted_in_sessions() {
    assert_eq!(first_session_in_era(0, 10), 0);
    assert_eq!(first_session_in_era(3, 10), 30);
}

#[test]
fn payouts_must_grow_every_locked_balance() {
    assert!(locked_balances_increased(&vec![1, 2], &vec![2, 3]));
    assert!(!locked_balances_increased(&vec![2], &vec![2]));
    assert!(!locked_balances_increased(&vec![1, 5], &vec![2, 4]));
    assert!(locked_balances_increased(&Vec::new(), &Vec::new()));
}
