use guest_abi::guest_string::CapacityOrSSO;
use guest_abi::guest_string::GUEST_STRING_SIZE;
use guest_abi::guest_string::GuestStdString;
use guest_abi::guest_string::SSO_CAPACITY;

#[test]
fn short_string_is_stored_inline_zero_padded() {
    let s = b"Hello, world!";
    assert!(s.len() <= SSO_CAPACITY);
    let g = GuestStdString::new(s, 0x1000);
    assert_eq!(g.ptr, 0x1000);
    assert_eq!(g.len, 13);
    match &g.cap_or_sso {
        CapacityOrSSO::Sso(b) => {
            assert_eq!(b.len(), 16);
            assert_eq!(&b[..13], s);
            assert_eq!(&b[13..], &[0, 0, 0]);
        }
        CapacityOrSSO::Cap(_) => panic!("short string must use the inline member"),
    }
}

#[test]
fn empty_string_is_inline_and_all_zero() {
    let g = GuestStdString::new(b"", 0);
    assert_eq!(g.len, 0);
    match &g.cap_or_sso {
        CapacityOrSSO::Sso(b) => assert_eq!(b.as_slice(), &[0u8; 16]),
        CapacityOrSSO::Cap(_) => panic!("empty string must use the inline member"),
    }
}

#[test]
fn threshold_length_is_still_inline() {
    let s = b"0123456789abcdef";
    assert_eq!(s.len(), SSO_CAPACITY);
    let g = GuestStdString::new(s, 7);
    match &g.cap_or_sso {
        CapacityOrSSO::Sso(b) => assert_eq!(b.as_slice(), s),
        CapacityOrSSO::Cap(_) => panic!("threshold-length string must use the inline member"),
    }
}

#[test]
fn one_past_threshold_uses_capacity() {
    let s = b"0123456789abcdefg";
    assert_eq!(s.len(), SSO_CAPACITY + 1);
    let g = GuestStdString::new(s, 7);
    assert_eq!(g.len, 17);
    match g.cap_or_sso {
        CapacityOrSSO::Cap(c) => assert_eq!(c, 17),
        CapacityOrSSO::Sso(_) => panic!("long string must use the capacity member"),
    }
}

#[test]
fn twenty_byte_string_reports_capacity_not_inline_bytes() {
    let s = b"exactly twenty bytes";
    assert_eq!(s.len(), 20);
    let g = GuestStdString::new(s, 0x2000);
    assert_eq!(g.ptr, 0x2000);
    assert_eq!(g.len, 20);
    match g.cap_or_sso {
        CapacityOrSSO::Cap(c) => assert_eq!(c, 20),
        CapacityOrSSO::Sso(_) => panic!("long string must use the capacity member"),
    }
    // boundary form: pointer word, length word, capacity word, zeros —
    // none of the source bytes appear
    let bytes = g.to_bytes();
    assert_eq!(bytes.len(), GUEST_STRING_SIZE);
    assert_eq!(&bytes[0..8], &0x2000u64.to_le_bytes());
    assert_eq!(&bytes[8..16], &20u64.to_le_bytes());
    assert_eq!(&bytes[16..24], &20u64.to_le_bytes());
    assert_eq!(&bytes[24..32], &[0; 8]);
}

#[test]
fn short_string_boundary_form_carries_the_bytes() {
    let g = GuestStdString::new(b"hi", 0xabc);
    let bytes = g.to_bytes();
    assert_eq!(bytes.len(), 32);
    assert_eq!(&bytes[0..8], &0xabcu64.to_le_bytes());
    assert_eq!(&bytes[8..16], &2u64.to_le_bytes());
    assert_eq!(bytes[16], b'h');
    assert_eq!(bytes[17], b'i');
    assert_eq!(&bytes[18..32], &[0; 14]);
}
