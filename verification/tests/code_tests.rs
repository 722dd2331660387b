use url_shortener::code::{code_from_text, generate_code, CODE_LEN};

fn is_lower_hex(c: char) -> bool {
    matches!(c, '0'..='9' | 'a'..='f')
}

#[test]
fn code_length_is_eight() {
    assert_eq!(CODE_LEN, 8);
}

#[test]
fn generated_code_has_fixed_length() {
    for _ in 0..200 {
        let code = generate_code();
        assert_eq!(code.chars().count(), 8);
        assert_eq!(code.len(), 8);
    }
}

#[test]
fn generated_code_is_lower_hex() {
    for _ in 0..200 {
        let code = generate_code();
        assert!(code.chars().all(is_lower_hex), "unexpected code {}", code);
    }
}

#[test]
fn generated_codes_vary() {
    let first = generate_code();
    let mut all_equal = true;
    for _ in 0..16 {
        if generate_code() != first {
            all_equal = false;
        }
    }
    assert!(!all_equal);
}

#[test]
fn code_from_text_takes_first_eight() {
    assert_eq!(
        code_from_text("67e55044-10b1-426f-9247-bb680e5fe0c8"),
        "67e55044"
    );
    assert_eq!(code_from_text("0123456789"), "01234567");
}

#[test]
fn code_from_text_keeps_exactly_eight() {
    assert_eq!(code_from_text("abcdefgh"), "abcdefgh");
}

#[test]
fn code_from_text_keeps_short_text() {
    assert_eq!(code_from_text("abc"), "abc");
    assert_eq!(code_from_text(""), "");
}

#[test]
fn code_from_text_counts_characters_not_bytes() {
    assert_eq!(code_from_text("äöüäöüäöüäöü"), "äöüäöüäö");
}
