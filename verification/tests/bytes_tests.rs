use rattler_pty::{contains_nul, terminated};

#[test]
fn nul_scanning_finds_the_zero_byte() {
    assert!(!contains_nul(&b"abc".to_vec()));
    assert!(contains_nul(&b"a\0c".to_vec()));
    assert!(contains_nul(&b"\0".to_vec()));
    assert!(!contains_nul(&Vec::new()));
}

#[test]
fn termination_appends_exactly_one_zero_byte() {
    assert_eq!(terminated(&b"ab".to_vec()), b"ab\0".to_vec());
    assert_eq!(terminated(&Vec::new()), b"\0".to_vec());
}
