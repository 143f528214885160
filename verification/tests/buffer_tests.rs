//! Tests of the shared buffer store: a fresh bridge is zeroed, and each
//! indexed setter is read back by the matching getter.

use threshold_bridge::Bridge;
use threshold_bridge::{CT_CAP, MSG_CAP, PK_LEN, SIG_LEN, SK_LEN};

#[test]
fn fresh_bridge_is_zeroed() {
    let b = Bridge::new();
    assert_eq!(b.get_sk_byte(0), 0);
    assert_eq!(b.get_sk_byte(SK_LEN - 1), 0);
    assert_eq!(b.get_pk_byte(PK_LEN - 1), 0);
    assert_eq!(b.get_sig_byte(SIG_LEN - 1), 0);
    assert_eq!(b.get_msg_byte(MSG_CAP - 1), 0);
    assert_eq!(b.get_ct_byte(CT_CAP - 1), 0);
}

#[test]
fn sk_bytes_round_trip() {
    let mut b = Bridge::new();
    b.set_sk_byte(0, 0xAB);
    b.set_sk_byte(SK_LEN - 1, 0xCD);
    assert_eq!(b.get_sk_byte(0), 0xAB);
    assert_eq!(b.get_sk_byte(SK_LEN - 1), 0xCD);
    assert_eq!(b.get_sk_byte(1), 0);
}

#[test]
fn pk_bytes_round_trip() {
    let mut b = Bridge::new();
    b.set_pk_byte(7, 0x11);
    assert_eq!(b.get_pk_byte(7), 0x11);
    assert_eq!(b.get_pk_byte(8), 0);
}

#[test]
fn sig_bytes_round_trip() {
    let mut b = Bridge::new();
    b.set_sig_byte(95, 0x42);
    assert_eq!(b.get_sig_byte(95), 0x42);
}

#[test]
fn msg_and_ct_bytes_round_trip() {
    let mut b = Bridge::new();
    b.set_msg_byte(0, 1);
    b.set_msg_byte(MSG_CAP - 1, 2);
    b.set_ct_byte(0, 3);
    b.set_ct_byte(CT_CAP - 1, 4);
    assert_eq!(b.get_msg_byte(0), 1);
    assert_eq!(b.get_msg_byte(MSG_CAP - 1), 2);
    assert_eq!(b.get_ct_byte(0), 3);
    assert_eq!(b.get_ct_byte(CT_CAP - 1), 4);
}

#[test]
fn setting_one_buffer_leaves_the_others() {
    let mut b = Bridge::new();
    b.set_msg_byte(3, 9);
    assert_eq!(b.get_ct_byte(3), 0);
    assert_eq!(b.get_sk_byte(3), 0);
    assert_eq!(b.get_pk_byte(3), 0);
    assert_eq!(b.get_sig_byte(3), 0);
}
