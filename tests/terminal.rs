use rawterm::mode::{RawModeBits, TerminalMode};
use rawterm::screen::{editor_draw_row, editor_refresh_screen};
use rawterm::Stdout;

fn linux_bits() -> RawModeBits {
    RawModeBits {
        echo: 0o10,
        canonical: 0o2,
        extended: 0o100000,
        signals: 0o1,
        cr_to_nl: 0o400,
        flow_control: 0o2000,
        post_process: 0o1,
    }
}

#[test]
fn raw_mode_clears_exactly_the_raw_flags() {
    let all = TerminalMode {
        input_flags: !0,
        output_flags: !0,
        control_flags: !0,
        local_flags: !0,
    };
    let raw = all.raw(&linux_bits());
    assert_eq!(raw.input_flags, !0 & !(0o400 | 0o2000));
    assert_eq!(raw.output_flags, !0 & !0o1);
    assert_eq!(raw.control_flags, !0);
    assert_eq!(raw.local_flags, !0 & !(0o10 | 0o2 | 0o100000 | 0o1));
}

#[test]
fn raw_mode_of_typical_settings() {
    let cooked = TerminalMode {
        input_flags: 0o2400 | 0o40000,
        output_flags: 0o5,
        control_flags: 0o277,
        local_flags: 0o105073,
    };
    let raw = cooked.raw(&linux_bits());
    assert_eq!(
        raw,
        TerminalMode {
            input_flags: 0o40000,
            output_flags: 0o4,
            control_flags: 0o277,
            local_flags: 0o5060,
        }
    );
    assert_eq!(raw.raw(&linux_bits()), raw);
}

#[test]
fn raw_mode_keeps_settings_without_raw_flags() {
    let m = TerminalMode {
        input_flags: 0,
        output_flags: 0,
        control_flags: 7,
        local_flags: 0,
    };
    assert_eq!(m.raw(&linux_bits()), m);
}

#[test]
fn stdout_collects_writes_in_order() {
    let mut out = Stdout::new();
    out.write_flush(b"ab");
    out.write_flush(b"");
    out.write_flush(b"c");
    assert_eq!(out.take_pending(), b"abc".to_vec());
    assert_eq!(out.take_pending(), Vec::<u8>::new());
}

#[test]
fn draw_row_writes_height_plus_one_rows() {
    let mut out = Stdout::new();
    editor_draw_row(&mut out, "~", 2);
    assert_eq!(out.take_pending(), b"~\r\n~\r\n~\r\n".to_vec());
    editor_draw_row(&mut out, "ab", 0);
    assert_eq!(out.take_pending(), b"ab\r\n".to_vec());
}

#[test]
fn refresh_screen_bytes() {
    let mut out = Stdout::new();
    editor_refresh_screen(&mut out);
    let mut expected = b"\x1b[2J\x1b[H".to_vec();
    for _ in 0..25 {
        expected.extend_from_slice(b"~\r\n");
    }
    expected.extend_from_slice(b"\x1b[H");
    assert_eq!(out.take_pending(), expected);
}
