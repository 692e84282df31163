use wcr::count::{count, total, CountError, FileInfo};

#[test]
fn test_count() {
    let text = "I don't want the world. I just want your half.\r\n";
    let info = count(text.as_bytes());
    assert!(info.is_ok());
    let expected = FileInfo {
        num_lines: 1,
        num_words: 10,
        num_chars: 48,
        num_bytes: 48,
    };

    assert_eq!(info.unwrap(), expected);
}

#[test]
fn empty_input_counts_nothing() {
    let info = count(b"").unwrap();
    assert_eq!(info, FileInfo { num_lines: 0, num_words: 0, num_bytes: 0, num_chars: 0 });
}

#[test]
fn unterminated_line_is_one_line() {
    let info = count(b"no line feed here").unwrap();
    assert_eq!(info.num_lines, 1);
    assert_eq!(info.num_words, 4);
    assert_eq!(info.num_bytes, 17);
}

#[test]
fn several_lines_and_blank_ones() {
    let info = count(b"one two\n\n  three \n\tfour").unwrap();
    assert_eq!(info, FileInfo { num_lines: 4, num_words: 4, num_bytes: 23, num_chars: 23 });
}

#[test]
fn multibyte_characters_count_once() {
    let info = count("h\u{e9}llo w\u{f6}rld\n".as_bytes()).unwrap();
    assert_eq!(info, FileInfo { num_lines: 1, num_words: 2, num_bytes: 14, num_chars: 12 });
    assert!(info.num_bytes >= info.num_chars);
}

#[test]
fn unicode_white_space_separates_words() {
    let info = count("a\u{a0}b\u{3000}c\u{2003}d".as_bytes()).unwrap();
    assert_eq!(info.num_words, 4);
    assert_eq!(info.num_chars, 7);
    assert_eq!(info.num_bytes, 1 + 2 + 1 + 3 + 1 + 3 + 1);
}

#[test]
fn invalid_utf8_is_refused() {
    assert_eq!(count(&[b'a', 0xff, b'\n']), Err(CountError::NotUtf8));
}

#[test]
fn totals_add_column_by_column() {
    let a = FileInfo { num_lines: 1, num_words: 2, num_bytes: 3, num_chars: 4 };
    let b = FileInfo { num_lines: 10, num_words: 20, num_bytes: 30, num_chars: 40 };
    assert_eq!(
        total(&vec![a, b]),
        Some(FileInfo { num_lines: 11, num_words: 22, num_bytes: 33, num_chars: 44 })
    );
    assert_eq!(total(&vec![]), Some(FileInfo::zero()));
}

#[test]
fn totals_that_overflow_are_refused() {
    let a = FileInfo { num_lines: usize::MAX, num_words: 0, num_bytes: 0, num_chars: 0 };
    let b = FileInfo { num_lines: 1, num_words: 0, num_bytes: 0, num_chars: 0 };
    assert_eq!(total(&vec![a, b]), None);
    assert_eq!(a.checked_add(&b), None);
    assert_eq!(a.checked_add(&FileInfo::zero()), Some(a));
}
