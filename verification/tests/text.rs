use rust_embedded_wgpu::text::{contains, to_ascii_lowercase};

#[test]
fn lower_case_keeps_what_is_no_capital() {
    let lower: String = to_ascii_lowercase("A[Z@z\u{c4}9").iter().collect();
    assert_eq!(lower, "a[z@z\u{c4}9");
}

#[test]
fn substrings_are_found() {
    let hay: Vec<char> = "aab".chars().collect();
    assert!(contains(&hay, "ab"));
    assert!(contains(&hay, "aab"));
    assert!(contains(&hay, ""));
    assert!(contains(&Vec::new(), ""));
    assert!(!contains(&hay, "ba"));
    assert!(!contains(&hay, "aaba"));
    assert!(!contains(&Vec::new(), "a"));
}
