use git_gud::text::{chars_of, is_ascii_digit, mark, split_digits};

#[test]
fn digits_are_the_ascii_ones() {
    for digit in '0'..='9' {
        assert!(is_ascii_digit(digit));
    }
    for other in ['/', ':', 'a', ' ', '٣', '²'] {
        assert!(!is_ascii_digit(other));
    }
}

#[test]
fn split_digits_cuts_behind_the_run() {
    assert_eq!(split_digits("42abc"), ("42", "abc"));
    assert_eq!(split_digits("abc"), ("", "abc"));
    assert_eq!(split_digits("123"), ("123", ""));
    assert_eq!(split_digits(""), ("", ""));
    assert_eq!(split_digits("1é2"), ("1", "é2"));
    assert_eq!(split_digits("é12"), ("", "é12"));
}

#[test]
fn mark_counts_bytes() {
    assert_eq!(mark(&String::new()), 0);
    assert_eq!(mark(&String::from("abc")), 3);
    assert_eq!(mark(&String::from("é€𝄞")), 9);
}

#[test]
fn chars_of_lists_the_characters() {
    assert_eq!(chars_of(""), Vec::<char>::new());
    assert_eq!(chars_of("aé𝄞"), vec!['a', 'é', '𝄞']);
}
