use rcli::process_gen_pass;

fn is_upper(b: u8) -> bool {
    (65..=90).contains(&b) && b != 73 && b != 79
}

fn is_lower(b: u8) -> bool {
    (97..=122).contains(&b) && b != 108
}

fn is_number(b: u8) -> bool {
    (49..=57).contains(&b)
}

fn is_symbol(b: u8) -> bool {
    b"!@#$%^&*_".contains(&b)
}

#[test]
fn test_gen_pass_all_classes() {
    let password = process_gen_pass(16, true, true, true, true).unwrap();
    assert_eq!(password.len(), 16);
    let bytes = password.as_bytes();
    assert!(bytes
        .iter()
        .all(|&b| is_upper(b) || is_lower(b) || is_number(b) || is_symbol(b)));
    assert!(bytes.iter().any(|&b| is_upper(b)));
    assert!(bytes.iter().any(|&b| is_lower(b)));
    assert!(bytes.iter().any(|&b| is_number(b)));
    assert!(bytes.iter().any(|&b| is_symbol(b)));
}

#[test]
fn test_gen_pass_single_class() {
    let password = process_gen_pass(10, false, false, true, false).unwrap();
    assert_eq!(password.len(), 10);
    assert!(password.as_bytes().iter().all(|&b| is_number(b)));
}

#[test]
fn test_gen_pass_excludes_look_alikes() {
    for _ in 0..8 {
        let password = process_gen_pass(64, true, true, true, false).unwrap();
        assert!(!password.contains('I'));
        assert!(!password.contains('O'));
        assert!(!password.contains('l'));
        assert!(!password.contains('0'));
    }
}

#[test]
fn test_gen_pass_key_length() {
    // the keyed-hash key generator draws its 32 bytes from this password
    // generator
    let password = process_gen_pass(32, true, true, true, true).unwrap();
    assert_eq!(password.as_bytes().len(), 32);
}
