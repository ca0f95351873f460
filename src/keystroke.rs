//! One unit of raw terminal input, as delivered by a single read of up to
//! four bytes, and its classification.

use crate::input::read_into;
use crate::term::{Session, Term};
use vstd::endian::{endianness, Endian};
use vstd::prelude::*;
use vstd::utf8::{char_u32_cast, is_scalar};

verus! {

/// The value of four bytes read least significant first.
pub open spec fn le_word(b: Seq<u8>) -> int {
    b[0] + 0x100 * b[1] + 0x1_0000 * b[2] + 0x100_0000 * b[3]
}

/// The value of four bytes read most significant first.
pub open spec fn be_word(b: Seq<u8>) -> int {
    b[3] + 0x100 * b[2] + 0x1_0000 * b[1] + 0x100_0000 * b[0]
}

/// The value of four bytes in the byte order of the executing machine.
pub open spec fn native_word(b: Seq<u8>) -> int {
    match endianness() {
        Endian::Little => le_word(b),
        Endian::Big => be_word(b),
    }
}

/// The character a keystroke stands for: its four bytes, taken as one
/// native-endian code point, when that is a Unicode scalar value.
pub open spec fn scalar_of(b: Seq<u8>) -> Option<char> {
    let v = native_word(b);
    if 0 <= v <= u32::MAX && is_scalar(v as u32) {
        Some(v as char)
    } else {
        None
    }
}

/// Relies on `u32::from_ne_bytes`: the four bytes as one integer in the
/// byte order of the machine.
#[verifier::external_body]
fn word_from_ne_bytes(b: [u8; 4]) -> (r: u32)
    ensures
        r == native_word(b@),
{
    u32::from_ne_bytes(b)
}

/// Relies on `char::from_u32`: `Some` exactly for Unicode scalar values,
/// holding that value.
#[verifier::external_body]
fn char_from_u32(v: u32) -> (r: Option<char>)
    ensures
        r is Some <==> is_scalar(v),
        r matches Some(c) ==> c as u32 == v,
{
    char::from_u32(v)
}

/// One read from a terminal in raw mode: four bytes, zero where nothing
/// was read.
#[derive(Debug, Clone, Copy)]
pub struct Keystroke(pub [u8; 4]);

impl Keystroke {
    /// A keystroke with all four bytes zero, ready to be filled by a read.
    pub fn new() -> (k: Self)
        ensures
            k.0@ == seq![0u8, 0, 0, 0],
    {
        let k = Keystroke([0u8; 4]);
        assert(k.0@ =~= seq![0u8, 0, 0, 0]);
        k
    }

    /// True when nothing was read (all four bytes zero).
    pub fn is_empty(&self) -> (r: bool)
        ensures
            r == (self.0@ == seq![0u8, 0, 0, 0]),
    {
        let r = self.0[0] == 0 && self.0[1] == 0 && self.0[2] == 0 && self.0[3] == 0;
        assert(r ==> self.0@ =~= seq![0u8, 0, 0, 0]);
        r
    }

    /// True for the interrupt character (ctrl-c) alone.
    pub fn is_ctrl_c(&self) -> (r: bool)
        ensures
            r == (self.0@ == seq![3u8, 0, 0, 0]),
    {
        let r = self.0[0] == 3 && self.0[1] == 0 && self.0[2] == 0 && self.0[3] == 0;
        assert(r ==> self.0@ =~= seq![3u8, 0, 0, 0]);
        r
    }

    /// True for the escape character alone.
    pub fn is_esc(&self) -> (r: bool)
        ensures
            r == (self.0@ == seq![27u8, 0, 0, 0]),
    {
        let r = self.0[0] == 27 && self.0[1] == 0 && self.0[2] == 0 && self.0[3] == 0;
        assert(r ==> self.0@ =~= seq![27u8, 0, 0, 0]);
        r
    }

    /// True for the lead-in of an escape sequence: escape followed by `[`.
    pub fn is_esc_code(&self) -> (r: bool)
        ensures
            r == (self.0@[0] == 27 && self.0@[1] == 0x5b),
    {
        self.0[0] == 27 && self.0[1] == 0x5b
    }

    /// True when the first byte is a carriage return (the enter key).
    pub fn is_enter(&self) -> (r: bool)
        ensures
            r == (self.0@[0] == 13),
    {
        self.0[0] == 13
    }

    /// The four bytes taken as one native-endian code point, when that is a
    /// Unicode scalar value.
    pub fn as_char(&self) -> (r: Option<char>)
        ensures
            r == scalar_of(self.0@),
    {
        let v = word_from_ne_bytes(self.0);
        let r = char_from_u32(v);
        proof {
            if let Some(c) = r {
                char_u32_cast(c, v);
            }
        }
        r
    }
}

impl core::ops::Deref for Keystroke {
    type Target = [u8; 4];

    fn deref(&self) -> (r: &[u8; 4])
        ensures
            *r == self.0,
    {
        &self.0
    }
}

impl core::ops::DerefMut for Keystroke {
    fn deref_mut(&mut self) -> (r: &mut [u8; 4])
        ensures
            *r == old(self).0,
            final(self).0 == *final(r),
    {
        &mut self.0
    }
}

/// The bytes of a keystroke for which one read put `n` bytes into `buf`:
/// those `n` bytes, then zeros.
pub open spec fn read_bytes(buf: Seq<u8>, n: int) -> Seq<u8> {
    buf.take(n) + Seq::new((4 - n) as nat, |i: int| 0u8)
}

/// The keystroke for which one read put `n` bytes into `buf`: the first
/// `n` bytes of `buf`, and zero after them, whatever the read left there.
pub fn keystroke_from_read(buf: [u8; 4], n: usize) -> (k: Keystroke)
    requires
        n <= 4,
    ensures
        k.0@ == read_bytes(buf@, n as int),
{
    let mut k = Keystroke(buf);
    let mut i = n;
    while i < 4
        invariant
            n <= i <= 4,
            forall|j: int| 0 <= j < n ==> k.0@[j] == buf@[j],
            forall|j: int| n <= j < i ==> k.0@[j] == 0,
        decreases 4 - i,
    {
        k.0[i] = 0;
        i = i + 1;
    }
    assert(k.0@ =~= read_bytes(buf@, n as int));
    k
}

/// Reads one keystroke from the session's input: a single read of up to
/// four bytes into a zeroed buffer, turned into a keystroke by
/// [`keystroke_from_read`], so a read of nothing gives an empty keystroke.
/// The terminal should be in raw mode; the session's snapshots and output
/// are not touched.
pub fn get_raw_keystroke<I: std::io::Read, O>(term: &mut Term<I, O>) -> (r: std::io::Result<
    Keystroke,
>)
    ensures
        final(term)@ == (Session { input: final(term)@.input, ..old(term)@ }),
{
    let mut buf = [0u8; 4];
    let res = read_into(term.input(), &mut buf);
    match res {
        Ok(n) => Ok(keystroke_from_read(buf, n)),
        Err(e) => Err(e),
    }
}

} // verus!
