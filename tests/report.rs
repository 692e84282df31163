use wcr::config::get_args;
use wcr::count::FileInfo;
use wcr::driver::{report_file, report_total, Message, Outcome};
use wcr::report::{file_line, format_field, format_row, total_line};

fn info(l: usize, w: usize, b: usize, c: usize) -> FileInfo {
    FileInfo { num_lines: l, num_words: w, num_bytes: b, num_chars: c }
}

#[test]
fn fields_are_right_aligned_in_eight() {
    assert_eq!(format_field(10, true), "      10");
    assert_eq!(format_field(0, true), "       0");
    assert_eq!(format_field(123456789, true), "123456789");
    assert_eq!(format_field(10, false), "");
}

#[test]
fn hidden_columns_leave_nothing() {
    let i = info(1, 10, 48, 48);
    let all = get_args(vec!["-".to_string()], true, true, false, true).unwrap();
    assert_eq!(format_row(&i, &all), "       1      10      48");
    let mut none = get_args(vec!["-".to_string()], true, false, false, false).unwrap();
    none.lines = false;
    assert_eq!(format_row(&i, &none), "");
}

#[test]
fn file_line_names_the_file_but_not_stdin() {
    let c = get_args(vec![], false, false, false, false).unwrap();
    let i = info(1, 10, 48, 48);
    assert_eq!(file_line(&i, &c, "-"), "       1      10      48");
    assert_eq!(file_line(&i, &c, "a.txt"), "       1      10      48 a.txt");
}

#[test]
fn total_line_only_for_several_files() {
    let i = info(3, 4, 5, 6);
    let one = get_args(vec!["a".to_string()], false, false, false, false).unwrap();
    assert_eq!(total_line(&i, &one), None);
    let two = get_args(vec!["a".to_string(), "b".to_string()], false, false, false, false).unwrap();
    assert_eq!(total_line(&i, &two), Some("       3       4       5 total".to_string()));
}

#[test]
fn missing_file_does_not_stop_the_rest() {
    let c = get_args(vec!["nope".to_string(), "b".to_string()], false, false, false, false)
        .unwrap();
    let mut counted = Vec::new();
    let m = report_file(&c, "nope", &Outcome::OpenFailed("No such file".to_string()), &mut counted);
    match m {
        Message::Stderr(s) => {
            assert_eq!(s, "nope: No such file");
            assert!(s.contains("nope"));
        }
        other => panic!("unexpected {:?}", other),
    }
    assert!(counted.is_empty());
    let m = report_file(&c, "b", &Outcome::Read(b"x y\n".to_vec()), &mut counted);
    match m {
        Message::Stdout(s) => assert_eq!(s, "       1       2       4 b"),
        other => panic!("unexpected {:?}", other),
    }
    assert_eq!(counted, vec![info(1, 2, 4, 4)]);
    assert_eq!(report_total(&c, &counted), Some("       1       2       4 total".to_string()));
}

#[test]
fn total_is_the_sum_of_counted_files() {
    let names = vec!["a".to_string(), "b".to_string(), "c".to_string()];
    let c = get_args(names, true, true, true, false).unwrap();
    let mut counted = Vec::new();
    report_file(&c, "a", &Outcome::Read(b"one\ntwo three\n".to_vec()), &mut counted);
    let m = report_file(&c, "b", &Outcome::ReadFailed, &mut counted);
    assert!(matches!(m, Message::Silent));
    report_file(&c, "c", &Outcome::Read(b"four".to_vec()), &mut counted);
    let m = report_file(&c, "d", &Outcome::Read(vec![0xc3]), &mut counted);
    assert!(matches!(m, Message::Silent));
    assert_eq!(counted, vec![info(2, 3, 14, 14), info(1, 1, 4, 4)]);
    assert_eq!(report_total(&c, &counted), Some("       3       4      18 total".to_string()));
}

#[test]
fn single_file_has_no_total() {
    let c = get_args(vec![], false, false, false, false).unwrap();
    let mut counted = Vec::new();
    report_file(&c, "-", &Outcome::Read(b"abc\n".to_vec()), &mut counted);
    assert_eq!(report_total(&c, &counted), None);
}
