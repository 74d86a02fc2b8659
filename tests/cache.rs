use talon::cache::{hash_build_file, should_rebuild};

#[test]
fn fingerprint_of_empty_script() {
    assert_eq!(hash_build_file(&Vec::new()), "e3b0c44298fc1c149afbf4c8996fb92427ae41e4649b934ca495991b7852b855");
}

#[test]
fn fingerprint_of_abc() {
    assert_eq!(hash_build_file(&b"abc".to_vec()), "ba7816bf8f01cfea414140de5dae2223b00361a396177a9cb410ff61f20015ad");
}

#[test]
fn fingerprint_is_deterministic_and_content_only() {
    let a1 = hash_build_file(&b"A".to_vec());
    let a2 = hash_build_file(&b"A".to_vec());
    let b = hash_build_file(&b"B".to_vec());
    assert_eq!(a1, a2);
    assert_ne!(a1, b);
    assert_eq!(a1.len(), 64);
}

#[test]
fn one_byte_change_changes_fingerprint() {
    let before = hash_build_file(&b"int main() { return 0; }".to_vec());
    let after = hash_build_file(&b"int main() { return 1; }".to_vec());
    assert_ne!(before, after);
}

#[test]
fn missing_record_is_stale() {
    assert!(should_rebuild(&None, "abc"));
}

#[test]
fn matching_record_is_fresh_even_with_whitespace() {
    let fp = hash_build_file(&b"A".to_vec());
    assert!(!should_rebuild(&Some(fp.clone()), &fp));
    assert!(!should_rebuild(&Some(format!("  {}\n", fp)), &fp));
}

#[test]
fn different_record_is_stale() {
    let a = hash_build_file(&b"A".to_vec());
    let b = hash_build_file(&b"B".to_vec());
    assert!(should_rebuild(&Some(a), &b));
    assert!(should_rebuild(&Some(String::new()), &b));
}
