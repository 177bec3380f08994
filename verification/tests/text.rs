use gdsave::text::{chars_of, push_decimal, str_eq};

#[test]
fn equal_strings() {
    assert!(str_eq("", ""));
    assert!(str_eq("k1", "k1"));
    assert!(!str_eq("k1", "k18"));
    assert!(!str_eq("k18", "k1"));
    assert!(!str_eq("k1", "k2"));
    assert!(!str_eq("K1", "k1"));
    assert!(str_eq("héllo ✓", "héllo ✓"));
    assert!(!str_eq("héllo", "hello"));
}

#[test]
fn characters_of_a_string() {
    assert_eq!(chars_of(""), Vec::<char>::new());
    assert_eq!(chars_of("aé✓"), vec!['a', 'é', '✓']);
}

#[test]
fn numbers_in_decimal() {
    for (n, expected) in [(0usize, "k_0"), (7, "k_7"), (9, "k_9"), (10, "k_10"), (99, "k_99"), (100, "k_100"), (1234567890, "k_1234567890")] {
        let mut label = String::from("k_");
        push_decimal(&mut label, n);
        assert_eq!(label, expected);
    }
    let mut text = String::new();
    push_decimal(&mut text, usize::MAX);
    assert_eq!(text, format!("{}", usize::MAX));
}
