use rawterm::editor::{ctrl_key, editor_process_key_press, key_press_text, QUIT_KEY};
use rawterm::stdin::read_byte;
use rawterm::Error;

fn text(key: Option<u8>) -> Option<String> {
    key_press_text(key)
}

#[test]
fn control_bytes_show_their_value() {
    for b in (0u8..32).chain(std::iter::once(127u8)) {
        let t = text(Some(b)).expect("a control byte goes on");
        assert!(t.contains(&b.to_string()));
        assert!(t.ends_with("\r\n"));
    }
}

#[test]
fn control_marker_exact_text() {
    assert_eq!(text(Some(0)), Some("<CTRL>: 0\r\n".to_string()));
    assert_eq!(text(Some(3)), Some("<CTRL>: 3\r\n".to_string()));
    assert_eq!(text(Some(27)), Some("<CTRL>: 27\r\n".to_string()));
    assert_eq!(text(Some(31)), Some("<CTRL>: 31\r\n".to_string()));
    assert_eq!(text(Some(127)), Some("<CTRL>: 127\r\n".to_string()));
}

#[test]
fn printable_bytes_show_themselves() {
    for b in 32u8..=126 {
        if b == b'q' {
            continue;
        }
        let expected = format!("{}\r\n", b as char);
        assert_eq!(text(Some(b)), Some(expected));
    }
}

#[test]
fn printable_edges() {
    assert_eq!(text(Some(b' ')), Some(" \r\n".to_string()));
    assert_eq!(text(Some(b'~')), Some("~\r\n".to_string()));
    assert_eq!(text(Some(b'Q')), Some("Q\r\n".to_string()));
}

#[test]
fn high_byte_is_its_latin1_character() {
    assert_eq!(text(Some(200)), Some("\u{c8}\r\n".to_string()));
    assert_eq!(text(Some(255)), Some("\u{ff}\r\n".to_string()));
}

#[test]
fn quit_key_ends_without_text() {
    assert_eq!(QUIT_KEY, b'q');
    assert_eq!(text(Some(113)), None);
}

#[test]
fn end_of_input_ends_without_text() {
    assert_eq!(text(None), None);
    let read = read_byte(Ok(0), [b'x']).unwrap();
    assert_eq!(read, None);
    assert_eq!(text(read), None);
}

#[test]
fn one_byte_per_call_in_order() {
    let bytes = [65u8, 66, 113];
    let mut outputs = Vec::new();
    for b in bytes {
        let key = read_byte(Ok(1), [b]).unwrap();
        outputs.push(text(key));
    }
    assert_eq!(
        outputs,
        vec![Some("A\r\n".to_string()), Some("B\r\n".to_string()), None]
    );
}

#[test]
fn quit_after_other_bytes() {
    for b in [0u8, 65, 127, 200] {
        assert!(text(Some(b)).is_some());
        assert_eq!(text(Some(113)), None);
    }
}

#[test]
fn read_byte_reports_the_byte() {
    assert_eq!(read_byte(Ok(1), [7]).unwrap(), Some(7));
    assert_eq!(read_byte(Ok(1), [255]).unwrap(), Some(255));
}

#[test]
fn read_byte_passes_the_error_on() {
    let err = std::io::Error::new(std::io::ErrorKind::Other, "broken pipe");
    match read_byte(Err(err), [0]) {
        Err(Error::IoError(e)) => assert_eq!(e.kind(), std::io::ErrorKind::Other),
        _ => panic!("expected an I/O error"),
    }
}

#[test]
fn session_key_quits_on_quit_key() {
    let quit = ctrl_key(b'q');
    assert!(matches!(
        editor_process_key_press(Ok(Some(quit)), quit),
        Err(Error::Quit)
    ));
    assert_eq!(
        editor_process_key_press(Ok(Some(b'a')), quit).unwrap(),
        Some(b'a')
    );
    assert_eq!(editor_process_key_press(Ok(None), quit).unwrap(), None);
    let err = std::io::Error::new(std::io::ErrorKind::Other, "gone");
    assert!(matches!(
        editor_process_key_press(Err(Error::from(err)), quit),
        Err(Error::IoError(_))
    ));
}

#[test]
fn ctrl_key_keeps_low_five_bits() {
    assert_eq!(ctrl_key(b'q'), 17);
    assert_eq!(ctrl_key(b'Q'), 17);
    assert_eq!(ctrl_key(b'a'), 1);
    assert_eq!(ctrl_key(0), 0);
    assert_eq!(ctrl_key(255), 31);
}

#[test]
fn error_messages() {
    assert_eq!(Error::Quit.message(), "quit");
    let err = std::io::Error::new(std::io::ErrorKind::Other, "no terminal here");
    let shown = err.to_string();
    assert_eq!(Error::from(err).message(), shown);
}
