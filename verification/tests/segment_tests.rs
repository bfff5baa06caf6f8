use live_watch::has_alphanumeric;
use live_watch::make_separate;
use live_watch::LineSeparation;

#[test]
fn all_lines_mode_keeps_every_segment() {
    let text = String::from("a\n\nb\n");
    let segs = make_separate(&text, LineSeparation::All);
    assert_eq!(segs, vec!["a\n", "\n", "b\n"]);
}

#[test]
fn content_mode_drops_empty_segment() {
    let text = String::from("a\n\nb\n");
    let segs = make_separate(&text, LineSeparation::AlphaNumeric);
    assert_eq!(segs, vec!["a\n", "b\n"]);
}

#[test]
fn off_mode_renders_no_segments() {
    let text = String::from("a\n\nb\n");
    let segs = make_separate(&text, LineSeparation::Off);
    assert!(segs.is_empty());
}

#[test]
fn unterminated_tail_belongs_to_no_segment() {
    let text = String::from("a\nb");
    let segs = make_separate(&text, LineSeparation::All);
    assert_eq!(segs, vec!["a\n"]);
}

#[test]
fn empty_text_has_no_segments() {
    let text = String::new();
    assert!(make_separate(&text, LineSeparation::All).is_empty());
    assert!(make_separate(&text, LineSeparation::AlphaNumeric).is_empty());
}

#[test]
fn content_mode_keeps_whitespace_only_line() {
    let text = String::from(" \n\n");
    let segs = make_separate(&text, LineSeparation::AlphaNumeric);
    assert_eq!(segs, vec![" \n"]);
}

#[test]
fn content_test_answers_on_buffers() {
    assert!(!has_alphanumeric(&vec![]));
    assert!(!has_alphanumeric(&vec!['\n']));
    assert!(!has_alphanumeric(&vec!['\n', '\n']));
    assert!(has_alphanumeric(&vec![' ', '\n']));
    assert!(has_alphanumeric(&vec!['x']));
    assert!(has_alphanumeric(&vec!['\n', 'q', '\n']));
}

#[test]
fn multibyte_text_segments_cleanly() {
    let text = String::from("höhe\nüber\n");
    let segs = make_separate(&text, LineSeparation::All);
    assert_eq!(segs, vec!["höhe\n", "über\n"]);
}
