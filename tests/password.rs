use rhxd::password::{scramble_password, unscramble_password, verify_password, xor_password};

#[test]
fn test_xor_password_symmetric() {
    let password = b"test123";
    let xored = xor_password(password);
    let double_xored = xor_password(&xored);
    assert_eq!(password, double_xored.as_slice());
}

#[test]
fn test_verify_password() {
    let password = b"mypassword";
    let scrambled = xor_password(password);
    assert!(verify_password(&scrambled, password));
    assert!(!verify_password(&scrambled, b"wrongpassword"));
}

#[test]
fn test_xor_inverse() {
    let data = b"Hello, World!";
    let xored_once = xor_password(data);
    let xored_twice = xor_password(&xored_once);
    assert_eq!(data, xored_twice.as_slice());
}

#[test]
fn test_xor_different_from_original() {
    let data = b"test";
    let xored = xor_password(data);
    assert_ne!(data, xored.as_slice());
}

#[test]
fn scramble_inverts_each_byte() {
    assert_eq!(xor_password(&[0x00, 0xff, 0x41]), vec![0xff, 0x00, 0xbe]);
    assert_eq!(scramble_password(b"a"), vec![0x9e]);
    assert_eq!(unscramble_password(&[0x9e]), b"a".to_vec());
    assert_eq!(xor_password(b""), Vec::<u8>::new());
}

#[test]
fn scramble_twice_on_all_bytes() {
    let all: Vec<u8> = (0..=255u8).collect();
    assert_eq!(xor_password(&xor_password(&all)), all);
}
