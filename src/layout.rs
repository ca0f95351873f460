//! Translation between a [`Termios`] snapshot and the operating system's
//! attribute structure, given where the operating system keeps each named
//! flag. Both sides are plain values; the caller supplies the layout (the
//! values of `ECHO`, `ICANON`, ... and the control-character slots) and
//! copies the structure's fields.

use crate::termios::{CharSize, ControlModes, InputModes, LocalModes, OutputModes, Termios};
use vstd::prelude::*;

verus! {

/// The operating system's attribute structure, field by field.
#[derive(Debug, Clone, Copy)]
pub struct RawTermios {
    pub iflag: u32,
    pub oflag: u32,
    pub cflag: u32,
    pub lflag: u32,
    pub line: u8,
    pub cc: [u8; 32],
    pub ispeed: u32,
    pub ospeed: u32,
}

/// The operating system's value of each flag a snapshot names, and the
/// slots of the minimum read count and of the read timeout among the
/// control characters.
#[derive(Debug, Clone, Copy, PartialEq, Eq, Structural)]
pub struct FlagLayout {
    pub brkint: u32,
    pub icrnl: u32,
    pub inlcr: u32,
    pub inpck: u32,
    pub istrip: u32,
    pub ixon: u32,
    pub iutf8: u32,
    pub opost: u32,
    pub csize: u32,
    pub cs5: u32,
    pub cs6: u32,
    pub cs7: u32,
    pub cs8: u32,
    pub echo: u32,
    pub echonl: u32,
    pub icanon: u32,
    pub iexten: u32,
    pub isig: u32,
    pub vmin: usize,
    pub vtime: usize,
}

/// The bits of the input word that a snapshot names.
pub open spec fn input_named(l: FlagLayout) -> u32 {
    l.brkint | l.icrnl | l.inlcr | l.inpck | l.istrip | l.ixon | l.iutf8
}

/// The bits of the local word that a snapshot names.
pub open spec fn local_named(l: FlagLayout) -> u32 {
    l.echo | l.echonl | l.icanon | l.iexten | l.isig
}

/// Whether `word` has a bit of `flag` set.
pub open spec fn has(word: u32, flag: u32) -> bool {
    word & flag != 0
}

/// `word` with the bits of `flag` set when `on`, cleared otherwise.
pub open spec fn put(word: u32, flag: u32, on: bool) -> u32 {
    if on {
        word | flag
    } else {
        word & !flag
    }
}

/// The character size that the size field `v` stands for; a value other
/// than the first three sizes is taken as eight bits.
pub open spec fn size_of_field(l: FlagLayout, v: u32) -> CharSize {
    if v == l.cs5 {
        CharSize::Five
    } else if v == l.cs6 {
        CharSize::Six
    } else if v == l.cs7 {
        CharSize::Seven
    } else {
        CharSize::Eight
    }
}

/// The size field for `s`.
pub open spec fn field_of_size(l: FlagLayout, s: CharSize) -> u32 {
    match s {
        CharSize::Five => l.cs5,
        CharSize::Six => l.cs6,
        CharSize::Seven => l.cs7,
        CharSize::Eight => l.cs8,
    }
}

/// The snapshot that the structure `t` stands for under the layout `l`.
pub open spec fn snapshot_of(t: RawTermios, l: FlagLayout) -> Termios
    recommends
        l.vmin < 32 && l.vtime < 32,
{
    Termios {
        input: InputModes {
            brkint: has(t.iflag, l.brkint),
            icrnl: has(t.iflag, l.icrnl),
            inlcr: has(t.iflag, l.inlcr),
            inpck: has(t.iflag, l.inpck),
            istrip: has(t.iflag, l.istrip),
            ixon: has(t.iflag, l.ixon),
            iutf8: has(t.iflag, l.iutf8),
            other: t.iflag & !input_named(l),
        },
        output: OutputModes { opost: has(t.oflag, l.opost), other: t.oflag & !l.opost },
        control: ControlModes {
            char_size: size_of_field(l, t.cflag & l.csize),
            other: t.cflag & !l.csize,
        },
        local: LocalModes {
            echo: has(t.lflag, l.echo),
            echonl: has(t.lflag, l.echonl),
            icanon: has(t.lflag, l.icanon),
            iexten: has(t.lflag, l.iexten),
            isig: has(t.lflag, l.isig),
            other: t.lflag & !local_named(l),
        },
        min_read: t.cc@[l.vmin as int],
        read_timeout: t.cc@[l.vtime as int],
        control_chars: t.cc,
        line: t.line,
        input_speed: t.ispeed,
        output_speed: t.ospeed,
    }
}

/// The input word for the snapshot's input modes.
pub open spec fn input_word(m: InputModes, l: FlagLayout) -> u32 {
    put(
        put(
            put(
                put(put(put(put(m.other, l.brkint, m.brkint), l.icrnl, m.icrnl), l.inlcr, m.inlcr), l.inpck, m.inpck),
                l.istrip,
                m.istrip,
            ),
            l.ixon,
            m.ixon,
        ),
        l.iutf8,
        m.iutf8,
    )
}

/// The local word for the snapshot's local modes.
pub open spec fn local_word(m: LocalModes, l: FlagLayout) -> u32 {
    put(
        put(put(put(put(m.other, l.echo, m.echo), l.echonl, m.echonl), l.icanon, m.icanon), l.iexten, m.iexten),
        l.isig,
        m.isig,
    )
}

/// The structure that stands for the snapshot `s` under the layout `l`:
/// the kept bits with the named flags put in. (The minimum read count and
/// the read timeout are further written into their control-character
/// slots; see [`Termios::to_raw`].)
pub open spec fn raw_of(s: Termios, l: FlagLayout) -> RawTermios {
    RawTermios {
        iflag: input_word(s.input, l),
        oflag: put(s.output.other, l.opost, s.output.opost),
        cflag: (s.control.other & !l.csize) | field_of_size(l, s.control.char_size),
        lflag: local_word(s.local, l),
        line: s.line,
        cc: s.control_chars,
        ispeed: s.input_speed,
        ospeed: s.output_speed,
    }
}

fn has_bits(word: u32, flag: u32) -> (r: bool)
    ensures
        r == has(word, flag),
{
    word & flag != 0
}

fn put_bits(word: u32, flag: u32, on: bool) -> (r: u32)
    ensures
        r == put(word, flag, on),
{
    if on {
        word | flag
    } else {
        word & !flag
    }
}

impl Termios {
    /// The snapshot that the operating system's structure `t` stands for.
    pub fn from_raw(t: &RawTermios, l: &FlagLayout) -> (s: Termios)
        requires
            l.vmin < 32,
            l.vtime < 32,
        ensures
            s == snapshot_of(*t, *l),
    {
        let field = t.cflag & l.csize;
        let char_size = if field == l.cs5 {
            CharSize::Five
        } else if field == l.cs6 {
            CharSize::Six
        } else if field == l.cs7 {
            CharSize::Seven
        } else {
            CharSize::Eight
        };
        let input_named = l.brkint | l.icrnl | l.inlcr | l.inpck | l.istrip | l.ixon | l.iutf8;
        let local_named = l.echo | l.echonl | l.icanon | l.iexten | l.isig;
        Termios {
            input: InputModes {
                brkint: has_bits(t.iflag, l.brkint),
                icrnl: has_bits(t.iflag, l.icrnl),
                inlcr: has_bits(t.iflag, l.inlcr),
                inpck: has_bits(t.iflag, l.inpck),
                istrip: has_bits(t.iflag, l.istrip),
                ixon: has_bits(t.iflag, l.ixon),
                iutf8: has_bits(t.iflag, l.iutf8),
                other: t.iflag & !input_named,
            },
            output: OutputModes { opost: has_bits(t.oflag, l.opost), other: t.oflag & !l.opost },
            control: ControlModes { char_size, other: t.cflag & !l.csize },
            local: LocalModes {
                echo: has_bits(t.lflag, l.echo),
                echonl: has_bits(t.lflag, l.echonl),
                icanon: has_bits(t.lflag, l.icanon),
                iexten: has_bits(t.lflag, l.iexten),
                isig: has_bits(t.lflag, l.isig),
                other: t.lflag & !local_named,
            },
            min_read: t.cc[l.vmin],
            read_timeout: t.cc[l.vtime],
            control_chars: t.cc,
            line: t.line,
            input_speed: t.ispeed,
            output_speed: t.ospeed,
        }
    }

    /// The operating system's structure for this snapshot.
    pub fn to_raw(&self, l: &FlagLayout) -> (t: RawTermios)
        requires
            l.vmin < 32,
            l.vtime < 32,
        ensures
            t == (RawTermios { cc: t.cc, ..raw_of(*self, *l) }),
            t.cc@ == self.control_chars@.update(l.vmin as int, self.min_read).update(
                l.vtime as int,
                self.read_timeout,
            ),
    {
        let i = &self.input;
        let mut iflag = put_bits(i.other, l.brkint, i.brkint);
        iflag = put_bits(iflag, l.icrnl, i.icrnl);
        iflag = put_bits(iflag, l.inlcr, i.inlcr);
        iflag = put_bits(iflag, l.inpck, i.inpck);
        iflag = put_bits(iflag, l.istrip, i.istrip);
        iflag = put_bits(iflag, l.ixon, i.ixon);
        iflag = put_bits(iflag, l.iutf8, i.iutf8);
        let m = &self.local;
        let mut lflag = put_bits(m.other, l.echo, m.echo);
        lflag = put_bits(lflag, l.echonl, m.echonl);
        lflag = put_bits(lflag, l.icanon, m.icanon);
        lflag = put_bits(lflag, l.iexten, m.iexten);
        lflag = put_bits(lflag, l.isig, m.isig);
        let size = match self.control.char_size {
            CharSize::Five => l.cs5,
            CharSize::Six => l.cs6,
            CharSize::Seven => l.cs7,
            CharSize::Eight => l.cs8,
        };
        let mut cc = self.control_chars;
        cc[l.vmin] = self.min_read;
        cc[l.vtime] = self.read_timeout;
        RawTermios {
            iflag,
            oflag: put_bits(self.output.other, l.opost, self.output.opost),
            cflag: (self.control.other & !l.csize) | size,
            lflag,
            line: self.line,
            cc,
            ispeed: self.input_speed,
            ospeed: self.output_speed,
        }
    }
}

} // verus!
