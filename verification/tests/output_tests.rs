use kilo::input::EditorKey;
use kilo::output::{editor_clear_screen, editor_draw_rows, editor_refresh_screen, truncated_len, welcome_message};
use kilo::EditorConfig;

const BANNER: &[u8] = b"Kilo Editor -- version 0.0.1";

/// A frame put together row by row from what each row is to show.
fn frame_from_rows(rows: &[Vec<u8>], cursor: &[u8]) -> Vec<u8> {
    let mut frame = b"\x1b[?25l\x1b[H".to_vec();
    for (i, row) in rows.iter().enumerate() {
        frame.extend_from_slice(row);
        frame.extend_from_slice(b"\x1b[K");
        if i + 1 < rows.len() {
            frame.extend_from_slice(b"\r\n");
        }
    }
    frame.extend_from_slice(cursor);
    frame.extend_from_slice(b"\x1b[?25h");
    frame
}

fn banner_row(tilde: bool, blanks: usize, shown: usize) -> Vec<u8> {
    let mut row = Vec::new();
    if tilde {
        row.push(b'~');
    }
    row.extend(std::iter::repeat(b' ').take(blanks));
    row.extend_from_slice(&BANNER[..shown]);
    row
}

#[test]
fn welcome_message_text() {
    assert_eq!(welcome_message().as_bytes(), BANNER);
    assert_eq!(welcome_message().len(), 28);
}

#[test]
fn empty_content_renders_banner_and_tildes() {
    let config = EditorConfig::setup(24, 80, Vec::new());
    let mut rows = vec![b"~".to_vec(); 24];
    rows[8] = banner_row(true, 25, 28);
    assert_eq!(rows[8].len(), 54);
    let frame = editor_refresh_screen(&config);
    assert_eq!(frame, frame_from_rows(&rows, b"\x1b[1;1H"));
}

#[test]
fn rendering_twice_gives_the_same_frame() {
    let mut config = EditorConfig::setup(7, 33, vec![String::from("alpha"), String::from("beta")]);
    config.move_cursor(&EditorKey::ArrowDown);
    config.move_cursor(&EditorKey::End);
    let first = editor_refresh_screen(&config);
    let second = editor_refresh_screen(&config);
    assert_eq!(first, second);
    let again = EditorConfig::setup(7, 33, vec![String::from("alpha"), String::from("beta")]);
    let mut again = again;
    again.move_cursor(&EditorKey::ArrowDown);
    again.move_cursor(&EditorKey::End);
    assert_eq!(editor_refresh_screen(&again), first);
}

#[test]
fn content_lines_are_shown_as_they_are() {
    let lines = vec![String::from("first"), String::from(""), String::from("h\u{e9}llo \u{4e16}\u{754c}")];
    let config = EditorConfig::setup(5, 20, lines);
    let rows = vec![
        b"first".to_vec(),
        Vec::new(),
        "h\u{e9}llo \u{4e16}\u{754c}".as_bytes().to_vec(),
        b"~".to_vec(),
        b"~".to_vec(),
    ];
    assert_eq!(editor_refresh_screen(&config), frame_from_rows(&rows, b"\x1b[1;1H"));
}

#[test]
fn banner_is_left_out_once_there_is_content() {
    let config = EditorConfig::setup(24, 80, vec![String::from("only line")]);
    let mut rows = vec![b"~".to_vec(); 24];
    rows[0] = b"only line".to_vec();
    assert_eq!(editor_refresh_screen(&config), frame_from_rows(&rows, b"\x1b[1;1H"));
}

#[test]
fn more_lines_than_rows_shows_the_first_rows() {
    let lines = vec![String::from("a"), String::from("b"), String::from("c")];
    let config = EditorConfig::setup(2, 10, lines);
    let rows = vec![b"a".to_vec(), b"b".to_vec()];
    assert_eq!(editor_refresh_screen(&config), frame_from_rows(&rows, b"\x1b[1;1H"));
}

#[test]
fn single_row_viewport_shows_the_banner_without_line_break() {
    let config = EditorConfig::setup(1, 28, Vec::new());
    let frame = editor_refresh_screen(&config);
    let mut expected = b"\x1b[?25l\x1b[H".to_vec();
    expected.extend_from_slice(BANNER);
    expected.extend_from_slice(b"\x1b[K\x1b[1;1H\x1b[?25h");
    assert_eq!(frame, expected);
}

#[test]
fn banner_is_cut_to_a_narrow_viewport() {
    let config = EditorConfig::setup(3, 10, Vec::new());
    let rows = vec![b"~".to_vec(), b"Kilo Edito".to_vec(), b"~".to_vec()];
    assert_eq!(editor_refresh_screen(&config), frame_from_rows(&rows, b"\x1b[1;1H"));
}

#[test]
fn banner_padding_by_width() {
    for (cols, tilde, blanks) in [(28, false, 0), (29, false, 0), (30, true, 0), (31, true, 0), (32, true, 1), (128, true, 49)] {
        let config = EditorConfig::setup(3, cols, Vec::new());
        let rows = vec![b"~".to_vec(), banner_row(tilde, blanks, 28), b"~".to_vec()];
        assert_eq!(editor_refresh_screen(&config), frame_from_rows(&rows, b"\x1b[1;1H"));
    }
}

#[test]
fn cursor_code_counts_from_one() {
    let mut config = EditorConfig::setup(24, 80, Vec::new());
    for _ in 0..9 {
        config.move_cursor(&EditorKey::ArrowRight);
    }
    for _ in 0..11 {
        config.move_cursor(&EditorKey::ArrowDown);
    }
    let mut rows = vec![b"~".to_vec(); 24];
    rows[8] = banner_row(true, 25, 28);
    assert_eq!(editor_refresh_screen(&config), frame_from_rows(&rows, b"\x1b[12;10H"));
    config.move_cursor(&EditorKey::End);
    config.move_cursor(&EditorKey::PageDown);
    assert_eq!(editor_refresh_screen(&config), frame_from_rows(&rows, b"\x1b[24;80H"));
}

#[test]
fn cursor_code_with_many_digits() {
    let mut config = EditorConfig::setup(2, 100500, vec![String::from("x"), String::from("y")]);
    config.move_cursor(&EditorKey::End);
    let rows = vec![b"x".to_vec(), b"y".to_vec()];
    assert_eq!(editor_refresh_screen(&config), frame_from_rows(&rows, b"\x1b[1;100500H"));
}

#[test]
fn draw_rows_appends_to_what_is_there() {
    let config = EditorConfig::setup(2, 5, vec![String::from("ab")]);
    let mut buf = b"xyz".to_vec();
    editor_draw_rows(&config, &mut buf);
    assert_eq!(buf, b"xyzab\x1b[K\r\n~\x1b[K".to_vec());
}

#[test]
fn truncation_keeps_characters_whole() {
    assert_eq!(truncated_len("hello", 10), 5);
    assert_eq!(truncated_len("hello", 5), 5);
    assert_eq!(truncated_len("hello", 3), 3);
    assert_eq!(truncated_len("hello", 0), 0);
    assert_eq!(truncated_len("", 4), 0);
    assert_eq!(truncated_len("a\u{e9}b", 1), 1);
    assert_eq!(truncated_len("a\u{e9}b", 2), 1);
    assert_eq!(truncated_len("a\u{e9}b", 3), 3);
    assert_eq!(truncated_len("\u{4e16}\u{754c}", 2), 0);
    assert_eq!(truncated_len("\u{4e16}\u{754c}", 5), 3);
    assert_eq!(truncated_len("\u{1f600}", 3), 0);
    assert_eq!(truncated_len("\u{1f600}", 4), 4);
}

#[test]
fn clear_screen_bytes() {
    assert_eq!(editor_clear_screen(), b"\x1b[2J\x1b[H".to_vec());
}
