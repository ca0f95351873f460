use std::io::{IoSliceMut, Read};

use nix::pty::{openpty, OpenptyResult};
use nix::sys::termios::{tcgetattr, tcsetattr, SetArg};
use termkit::{get_raw_keystroke, FlagLayout, RawTermios, SetAction, Term, Termios};

/// Reads from the follower side of a pseudo-terminal pair.
struct Follower(OpenptyResult);

impl Read for Follower {
    fn read(&mut self, buf: &mut [u8]) -> std::io::Result<usize> {
        let mut iov = [IoSliceMut::new(buf)];
        nix::sys::uio::readv(&self.0.slave, &mut iov).map_err(std::io::Error::from)
    }
}

const LAYOUT: FlagLayout = FlagLayout {
    brkint: libc::BRKINT,
    icrnl: libc::ICRNL,
    inlcr: libc::INLCR,
    inpck: libc::INPCK,
    istrip: libc::ISTRIP,
    ixon: libc::IXON,
    iutf8: libc::IUTF8,
    opost: libc::OPOST,
    csize: libc::CSIZE,
    cs5: libc::CS5,
    cs6: libc::CS6,
    cs7: libc::CS7,
    cs8: libc::CS8,
    echo: libc::ECHO,
    echonl: libc::ECHONL,
    icanon: libc::ICANON,
    iexten: libc::IEXTEN,
    isig: libc::ISIG,
    vmin: libc::VMIN,
    vtime: libc::VTIME,
};

fn from_os(t: &libc::termios) -> Termios {
    let raw = RawTermios {
        iflag: t.c_iflag,
        oflag: t.c_oflag,
        cflag: t.c_cflag,
        lflag: t.c_lflag,
        line: t.c_line,
        cc: t.c_cc,
        ispeed: t.c_ispeed,
        ospeed: t.c_ospeed,
    };
    Termios::from_raw(&raw, &LAYOUT)
}

fn to_os(s: &Termios) -> libc::termios {
    let raw = s.to_raw(&LAYOUT);
    libc::termios {
        c_iflag: raw.iflag,
        c_oflag: raw.oflag,
        c_cflag: raw.cflag,
        c_lflag: raw.lflag,
        c_line: raw.line,
        c_cc: raw.cc,
        c_ispeed: raw.ispeed,
        c_ospeed: raw.ospeed,
    }
}

fn arg(a: SetAction) -> SetArg {
    match a {
        SetAction::TCSAFLUSH => SetArg::TCSAFLUSH,
        SetAction::TCSANOW => SetArg::TCSANOW,
        SetAction::TCSADRAIN => SetArg::TCSADRAIN,
    }
}

#[test]
fn raw_keystroke_over_a_pseudo_terminal() {
    let pty = openpty(None, None).expect("a pseudo-terminal pair");
    let before: libc::termios = tcgetattr(&pty.slave).expect("attributes").into();
    let captured = from_os(&before);
    assert_eq!(from_os(&to_os(&captured)), captured);
    let back = to_os(&captured);
    assert_eq!(back.c_iflag, before.c_iflag);
    assert_eq!(back.c_oflag, before.c_oflag);
    assert_eq!(back.c_cflag, before.c_cflag);
    assert_eq!(back.c_lflag, before.c_lflag);
    assert_eq!(back.c_cc, before.c_cc);

    let mut term = Term::new(Follower(pty), (), captured);
    let commit = term.raw_mode().set(SetAction::TCSAFLUSH);
    let os = to_os(&commit.attributes);
    tcsetattr(&term.input().0.slave, arg(commit.action), &os.into()).expect("raw mode");
    let now: libc::termios = tcgetattr(&term.input().0.slave).expect("attributes").into();
    assert_eq!(from_os(&now), commit.attributes);
    assert_eq!(now.c_lflag & (libc::ECHO | libc::ICANON | libc::ISIG | libc::IEXTEN), 0);
    assert_eq!(now.c_cflag & libc::CSIZE, libc::CS8);

    nix::unistd::write(&term.input().0.master, b"a").expect("write to the terminal");
    let k = get_raw_keystroke(&mut term).expect("one keystroke");
    assert_eq!(k.as_char(), Some('a'));
    assert_eq!(k.0, [b'a', 0, 0, 0]);

    let commit = term.reset(SetAction::TCSANOW);
    let os = to_os(&commit.attributes);
    tcsetattr(&term.input().0.slave, arg(commit.action), &os.into()).expect("reset");
    let after: libc::termios = tcgetattr(&term.input().0.slave).expect("attributes").into();
    assert_eq!(from_os(&after), captured);
    assert_eq!(after.c_iflag, before.c_iflag);
    assert_eq!(after.c_oflag, before.c_oflag);
    assert_eq!(after.c_cflag, before.c_cflag);
    assert_eq!(after.c_lflag, before.c_lflag);
    assert_eq!(after.c_cc, before.c_cc);
}
