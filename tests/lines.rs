use howlto::lines::{help_report, line_window_of, plain_report};
use howlto::text::{base64_encode, chars_of};
use howlto::tools::TldrArgs;

#[test]
fn window_of_lines() {
    assert_eq!(line_window_of("a\nb\r\nc\n", 0, 50), "abc");
    assert_eq!(line_window_of("a\nb\r\nc\n", 1, 1), "b");
    assert_eq!(line_window_of("a\nb\nc", 2, 5), "c");
    assert_eq!(line_window_of("a\nb\nc", 7, 5), "");
    assert_eq!(line_window_of("", 0, 5), "");
    assert_eq!(line_window_of("\n\nx", 0, 5), "x");
    let text = "l1\nl2\r\n\nl4\r";
    let expected: String = text.lines().skip(1).take(2).collect();
    assert_eq!(line_window_of(text, 1, 2), expected);
}

#[test]
fn help_report_layout() {
    assert_eq!(
        help_report(0, 50, "usage\nmore\n", "warn"),
        "stdout(line: 0-49):\nusagemore\n(lines after was omitted, change arguments to check)\n\
         stderr(line: 0-49):\nwarn\n(lines after was omitted, change arguments to check)"
    );
    assert!(help_report(0, 0, "", "").starts_with("stdout(line: 0-0):\n"));
    assert!(help_report(usize::MAX, 5, "", "").starts_with(&format!("stdout(line: {}-{}):", usize::MAX, usize::MAX - 1)));
}

#[test]
fn plain_report_layout() {
    assert_eq!(plain_report("out", "err"), "stdout:\nout\nstderr:\nerr");
}

#[test]
fn tldr_page_words() {
    let args = TldrArgs { page: vec!["git commit".to_string(), "  -m\tx ".to_string(), "".to_string()] };
    assert_eq!(args.words(), vec!["git", "commit", "-m", "x"]);
}

#[test]
fn base64_matches_known_values() {
    assert_eq!(base64_encode(b""), "");
    assert_eq!(base64_encode(b"f"), "Zg==");
    assert_eq!(base64_encode(b"fo"), "Zm8=");
    assert_eq!(base64_encode(b"foo"), "Zm9v");
    assert_eq!(base64_encode(b"foobar"), "Zm9vYmFy");
    assert_eq!(base64_encode("ls -la | 你".as_bytes()), "bHMgLWxhIHwg5L2g");
}

#[test]
fn characters_of_text() {
    assert_eq!(chars_of("a你b"), vec!['a', '你', 'b']);
}
