use termkit::Keystroke;

#[test]
fn new_keystroke_is_empty() {
    let k = Keystroke::new();
    assert_eq!(k.0, [0, 0, 0, 0]);
    assert!(k.is_empty());
    assert!(!k.is_ctrl_c());
    assert!(!k.is_esc());
    assert!(!k.is_enter());
}

#[test]
fn ctrl_c_is_classified() {
    let k = Keystroke([3, 0, 0, 0]);
    assert!(k.is_ctrl_c());
    assert!(!k.is_empty());
    assert!(!k.is_esc());
    assert!(!Keystroke([3, 1, 0, 0]).is_ctrl_c());
}

#[test]
fn enter_is_classified() {
    assert!(Keystroke([13, 0, 0, 0]).is_enter());
    assert!(Keystroke([13, 10, 0, 0]).is_enter());
    assert!(!Keystroke([10, 0, 0, 0]).is_enter());
}

#[test]
fn esc_is_classified() {
    let k = Keystroke([27, 0, 0, 0]);
    assert!(k.is_esc());
    assert!(!k.is_esc_code());
    assert!(!Keystroke([27, 91, 65, 0]).is_esc());
}

#[test]
fn esc_sequence_lead_in_is_classified() {
    assert!(Keystroke([27, b'[', b'A', 0]).is_esc_code());
    assert!(Keystroke([27, b'[', 0, 0]).is_esc_code());
    assert!(!Keystroke([27, b'O', b'P', 0]).is_esc_code());
}

#[test]
fn empty_keystroke_has_nul_char() {
    let k = Keystroke([0, 0, 0, 0]);
    assert!(k.is_empty());
    assert_eq!(k.as_char(), Some('\0'));
}

#[test]
fn native_encoding_of_a_char_decodes() {
    let k = Keystroke(('A' as u32).to_ne_bytes());
    assert_eq!(k.as_char(), Some('A'));
    let k = Keystroke(('\u{e9}' as u32).to_ne_bytes());
    assert_eq!(k.as_char(), Some('\u{e9}'));
    let k = Keystroke(('\u{1f600}' as u32).to_ne_bytes());
    assert_eq!(k.as_char(), Some('\u{1f600}'));
}

#[test]
fn non_scalar_values_give_no_char() {
    assert_eq!(Keystroke(0xD800u32.to_ne_bytes()).as_char(), None);
    assert_eq!(Keystroke(0x110000u32.to_ne_bytes()).as_char(), None);
    assert_eq!(Keystroke([0xff, 0xff, 0xff, 0xff]).as_char(), None);
}

#[test]
fn deref_gives_the_bytes() {
    let mut k = Keystroke::new();
    k[0] = b'x';
    assert_eq!(*k, [b'x', 0, 0, 0]);
    assert_eq!(k.as_char(), char::from_u32(u32::from_ne_bytes([b'x', 0, 0, 0])));
}

#[test]
fn keystroke_from_read_keeps_the_bytes_read() {
    assert_eq!(termkit::keystroke_from_read([b'a', 7, 7, 7], 1).0, [b'a', 0, 0, 0]);
    assert_eq!(termkit::keystroke_from_read([27, b'[', b'A', 9], 3).0, [27, b'[', b'A', 0]);
    assert_eq!(termkit::keystroke_from_read([1, 2, 3, 4], 4).0, [1, 2, 3, 4]);
    assert!(termkit::keystroke_from_read([5, 6, 7, 8], 0).is_empty());
}

#[test]
fn raw_keystroke_is_one_read() {
    let mut src: &[u8] = b"ab";
    let mut term = termkit::Term::new(&mut src, (), sample());
    let k = termkit::get_raw_keystroke(&mut term).unwrap();
    assert_eq!(k.0, [b'a', b'b', 0, 0]);
    let k = termkit::get_raw_keystroke(&mut term).unwrap();
    assert!(k.is_empty());
}

fn sample() -> termkit::Termios {
    termkit::Termios {
        input: termkit::InputModes {
            brkint: false,
            icrnl: false,
            inlcr: false,
            inpck: false,
            istrip: false,
            ixon: false,
            iutf8: false,
            other: 0,
        },
        output: termkit::OutputModes { opost: false, other: 0 },
        control: termkit::ControlModes { char_size: termkit::CharSize::Eight, other: 0 },
        local: termkit::LocalModes {
            echo: false,
            echonl: false,
            icanon: false,
            iexten: false,
            isig: false,
            other: 0,
        },
        min_read: 1,
        read_timeout: 0,
        control_chars: [0; 32],
        line: 0,
        input_speed: 0,
        output_speed: 0,
    }
}
