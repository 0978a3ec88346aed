use ccc_lib::io::{chars_of, words, FileIoReadProvider, IoReader, TcFileInput};

fn lines(raw: &[&str]) -> Vec<String> {
    raw.iter().map(|s| s.to_string()).collect()
}

#[test]
fn read_file_to_int_and_vec_and_tuple() {
    let raw = lines(&[
        "105",
        "14",
        "16",
        "IIIIIIIIIIIIIIII",
        "I......I.......I",
        "a b c xyz",
    ]);
    let mut input = TcFileInput::load_testfile("test_input.tc", &raw);
    assert_eq!(input.read_int(), 105);
    assert_eq!(input.read_int(), 14);
    assert_eq!(input.read_int(), 16);
    assert_eq!(
        input.read_vec(false),
        vec!["I", "I", "I", "I", "I", "I", "I", "I", "I", "I", "I", "I", "I", "I", "I", "I"]
    );
    assert_eq!(
        input.read_vec(false),
        vec!["I", ".", ".", ".", ".", ".", ".", "I", ".", ".", ".", ".", ".", ".", ".", "I"]
    );
    assert_eq!(input.read_vec(true), vec!["a", "b", "c", "xyz"]);
}

#[test]
fn read_from_file() {
    let raw = lines(&["This is a test file1.  ", "This is a test file2.\t"]);
    let mut reader = FileIoReadProvider::from_lines("test.txt", &raw);
    let ln = reader.read_line().unwrap();
    assert_eq!(ln, "This is a test file1.");
    let ln = reader.read_line().unwrap();
    assert_eq!(ln, "This is a test file2.");
    assert_eq!(reader.read_line(), None);
    assert_eq!(reader.file_path, "test.txt");
}

#[test]
fn testfile_path_is_in_the_input_directory() {
    let input = TcFileInput::load_testfile("a.tc", &lines(&[]));
    assert_eq!(
        input.file_handle.file_path,
        "/Users/lzcoder/repos/ccc-rust/io_files/a.tc"
    );
}

#[test]
fn words_are_runs_without_white_space() {
    assert_eq!(words(""), Vec::<String>::new());
    assert_eq!(words("   "), Vec::<String>::new());
    assert_eq!(words("a"), vec!["a"]);
    assert_eq!(words("  ab\tc \u{3000}d  "), vec!["ab", "c", "d"]);
    assert_eq!(words("x  y"), vec!["x", "y"]);
    for text in ["", " ", "a b", "  lead", "trail  ", "é ü\u{a0}ö", "a\nb\r\nc"] {
        let expected: Vec<String> = text.split_whitespace().map(String::from).collect();
        assert_eq!(words(text), expected);
    }
}

#[test]
fn chars_are_single_characters() {
    assert_eq!(chars_of(""), Vec::<String>::new());
    assert_eq!(chars_of("a é"), vec!["a", " ", "é"]);
}

#[test]
fn read_str_hands_out_lines_in_order() {
    let mut input = TcFileInput::load_testfile("t", &lines(&["one ", " two"]));
    assert_eq!(input.read_str(), "one");
    assert_eq!(input.read_str(), " two");
    assert!(input.file_handle.lines.is_empty());
}

#[test]
fn read_int_takes_signed_decimals() {
    let raw = lines(&[
        "0", "-0", "+7", "-12", "2147483647", "-2147483648", "2147483648", "-2147483649", "",
        "+", "-", "1 2", " 1", "12a", "007", "99999999999999999999999",
    ]);
    let expected = [0, 0, 7, -12, 2147483647, -2147483648, 0, 0, 0, 0, 0, 0, 0, 0, 7, 0];
    let mut input = TcFileInput::load_testfile("t", &raw);
    for want in expected {
        assert_eq!(input.read_int(), want);
    }
}
