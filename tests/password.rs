use std::io::Read;
use termkit::{LineProgress, Password, ReadLineError, PASSWORD_BUFFER_LEN};

/// Hands out its bytes a few at a time.
struct Trickle {
    data: Vec<u8>,
    pos: usize,
    step: usize,
    reads: usize,
}

impl Trickle {
    fn new(data: &[u8], step: usize) -> Trickle {
        Trickle { data: data.to_vec(), pos: 0, step, reads: 0 }
    }
}

impl Read for Trickle {
    fn read(&mut self, buf: &mut [u8]) -> std::io::Result<usize> {
        self.reads += 1;
        let n = self.step.min(buf.len()).min(self.data.len() - self.pos);
        buf[..n].copy_from_slice(&self.data[self.pos..self.pos + n]);
        self.pos += n;
        Ok(n)
    }
}

struct Broken;

impl Read for Broken {
    fn read(&mut self, _buf: &mut [u8]) -> std::io::Result<usize> {
        Err(std::io::Error::new(std::io::ErrorKind::BrokenPipe, "gone"))
    }
}

#[test]
fn new_buffer_is_empty() {
    let pw = Password::new();
    assert_eq!(pw.as_bytes(), b"");
    assert_eq!(pw.as_str().unwrap(), "");
}

#[test]
fn read_line_stops_at_newline() {
    let mut pw = Password::new();
    let mut src: &[u8] = b"hello\n";
    pw.read_line(&mut src).unwrap();
    assert_eq!(pw.as_bytes(), b"hello");
    assert_eq!(pw.as_str().unwrap(), "hello");
}

#[test]
fn read_line_does_not_join_lines() {
    let mut pw = Password::new();
    let mut src = Trickle::new(b"hello\nworld", 6);
    pw.read_line(&mut src).unwrap();
    assert_eq!(pw.as_bytes(), b"hello");
    assert_eq!(src.pos, 6);
    assert_eq!(src.reads, 6);
}

#[test]
fn read_line_ends_line_at_first_newline_of_a_read() {
    let mut pw = Password::new();
    let mut src: &[u8] = b"hello\nworld";
    pw.read_line(&mut src).unwrap();
    assert_eq!(pw.as_bytes(), b"hello");
}

#[test]
fn read_line_joins_short_reads() {
    let mut pw = Password::new();
    let mut src = Trickle::new(b"correct horse\n", 1);
    pw.read_line(&mut src).unwrap();
    assert_eq!(pw.as_bytes(), b"correct horse");
    assert_eq!(src.reads, 14);
}

#[test]
fn read_line_at_end_of_input_keeps_what_was_read() {
    let mut pw = Password::new();
    let mut src: &[u8] = b"abc";
    pw.read_line(&mut src).unwrap();
    assert_eq!(pw.as_bytes(), b"abc");
}

#[test]
fn read_line_terminates_a_reused_buffer() {
    let mut pw = Password::new();
    let mut src: &[u8] = b"a long first secret\n";
    pw.read_line(&mut src).unwrap();
    let mut src: &[u8] = b"short";
    pw.read_line(&mut src).unwrap();
    assert_eq!(pw.as_bytes(), b"short");
}

#[test]
fn read_line_refuses_input_that_overflows() {
    let mut pw = Password::new();
    let data = vec![b'a'; 600];
    let mut src: &[u8] = &data;
    let r = pw.read_line(&mut src);
    assert!(matches!(r, Err(ReadLineError::InvalidData)));
}

#[test]
fn read_line_takes_the_longest_line_that_fits() {
    let mut pw = Password::new();
    let mut data = vec![b'z'; PASSWORD_BUFFER_LEN - 2];
    data.push(b'\n');
    let mut src: &[u8] = &data;
    pw.read_line(&mut src).unwrap();
    assert_eq!(pw.as_bytes().len(), PASSWORD_BUFFER_LEN - 2);

    let mut pw = Password::new();
    let mut data = vec![b'z'; PASSWORD_BUFFER_LEN - 1];
    data.push(b'\n');
    let mut src: &[u8] = &data;
    assert!(matches!(pw.read_line(&mut src), Err(ReadLineError::InvalidData)));
}

#[test]
fn read_line_passes_on_source_errors() {
    let mut pw = Password::new();
    match pw.read_line(&mut Broken) {
        Err(ReadLineError::Io(e)) => assert_eq!(e.kind(), std::io::ErrorKind::BrokenPipe),
        other => panic!("unexpected {:?}", other),
    }
}

#[test]
fn as_str_refuses_invalid_utf8() {
    let mut pw = Password::new();
    let mut src: &[u8] = b"\xff\xfe\n";
    pw.read_line(&mut src).unwrap();
    assert_eq!(pw.as_bytes(), b"\xff\xfe");
    assert!(pw.as_str().is_err());
}

#[test]
fn as_str_decodes_utf8() {
    let mut pw = Password::new();
    let mut src: &[u8] = "p\u{e4}ss\n".as_bytes();
    pw.read_line(&mut src).unwrap();
    assert_eq!(pw.as_str().unwrap(), "p\u{e4}ss");
}

#[test]
fn mut_slice_leaves_the_terminator() {
    let mut pw = Password::new();
    let s = pw.as_mut_slice();
    assert_eq!(s.len(), PASSWORD_BUFFER_LEN - 1);
    for b in s.iter_mut() {
        *b = b'q';
    }
    assert_eq!(pw.as_bytes().len(), PASSWORD_BUFFER_LEN - 1);
    let mut src: &[u8] = b"xy";
    let n = src.read(pw.as_mut_slice()).unwrap();
    assert_eq!(n, 2);
    assert_eq!(&pw.as_bytes()[..3], b"xyq");
}

#[test]
fn wipe_zeroes_the_buffer() {
    let mut pw = Password::new();
    let mut src: &[u8] = b"secret\n";
    pw.read_line(&mut src).unwrap();
    pw.wipe();
    assert_eq!(pw.as_bytes(), b"");
    assert!(pw.as_mut_slice().iter().all(|b| *b == 0));
}

#[test]
fn accept_chunk_cases() {
    let mut pw = Password::new();
    pw.as_mut_slice()[..5].copy_from_slice(b"ab\ncd");
    assert_eq!(pw.accept_chunk(0, 2), LineProgress::More(2));
    assert_eq!(pw.accept_chunk(2, 3), LineProgress::Done);
    assert_eq!(pw.as_bytes(), b"ab");
    assert_eq!(&pw.as_mut_slice()[..5], b"ab\0cd");

    let mut pw = Password::new();
    pw.as_mut_slice()[..3].copy_from_slice(b"xyz");
    assert_eq!(pw.accept_chunk(3, 0), LineProgress::Done);
    assert_eq!(pw.as_bytes(), b"xyz");

    let mut pw = Password::new();
    for b in pw.as_mut_slice().iter_mut() {
        *b = b'k';
    }
    assert_eq!(pw.accept_chunk(500, 11), LineProgress::Full);
    assert_eq!(pw.accept_chunk(511, 0), LineProgress::Done);
    assert_eq!(pw.as_bytes().len(), 511);
}

#[test]
fn read_line_takes_nothing_after_the_newline() {
    let mut pw = Password::new();
    let mut src: &[u8] = b"hello\nworld";
    pw.read_line(&mut src).unwrap();
    assert_eq!(pw.as_bytes(), b"hello");
    assert_eq!(src, b"world");
}

#[test]
fn bytes_with_nul_end_in_the_terminator() {
    let mut pw = Password::new();
    let mut src: &[u8] = b"abc\n";
    pw.read_line(&mut src).unwrap();
    assert_eq!(pw.as_bytes_with_nul(), Some(&b"abc\0"[..]));
    for b in pw.as_mut_slice().iter_mut() {
        *b = b'k';
    }
    assert_eq!(pw.as_bytes_with_nul(), None);
}
