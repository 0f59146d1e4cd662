use runtime_supervisor::text::{chars_of, decimal_bytes, occurs, push_decimal};

#[test]
fn decimal_digits_of_small_and_large_numbers() {
    assert_eq!(decimal_bytes(0), b"0".to_vec());
    assert_eq!(decimal_bytes(7), b"7".to_vec());
    assert_eq!(decimal_bytes(10), b"10".to_vec());
    assert_eq!(decimal_bytes(1905), b"1905".to_vec());
    assert_eq!(decimal_bytes(u64::MAX), b"18446744073709551615".to_vec());
}

#[test]
fn decimal_is_appended_to_text() {
    let mut text = String::from("pid ");
    push_decimal(&mut text, 40960);
    assert_eq!(text, "pid 40960");
    push_decimal(&mut text, 0);
    assert_eq!(text, "pid 409600");
}

#[test]
fn characters_of_a_string() {
    assert_eq!(chars_of("aé|\n"), vec!['a', 'é', '|', '\n']);
    assert!(chars_of("").is_empty());
}

#[test]
fn pattern_occurrence() {
    let content: Vec<char> = "hello world".chars().collect();
    let world: Vec<char> = "world".chars().collect();
    let empty: Vec<char> = Vec::new();
    assert!(occurs(&content, &world, 6));
    assert!(!occurs(&content, &world, 5));
    assert!(!occurs(&content, &world, 7));
    assert!(!occurs(&content, &world, 11));
    assert!(!occurs(&content, &world, 100));
    assert!(occurs(&content, &empty, 0));
    assert!(occurs(&content, &empty, 11));
    assert!(!occurs(&content, &empty, 12));
    assert!(!occurs(&world, &content, 0));
}
