//! A terminal attribute snapshot as a typed value, and the mode transforms
//! on it.
//!
//! Each flag that a transform reads or writes has a named field; the bits
//! of the operating system's words that no named field covers are kept in
//! the `other` fields, exactly as captured, so that a snapshot translated to
//! the operating system's structure and back is unchanged.

use vstd::prelude::*;

verus! {

/// Size of each character sent or received.
#[derive(Debug, Clone, Copy, PartialEq, Eq, Structural)]
pub enum CharSize {
    Five,
    Six,
    Seven,
    Eight,
}

/// Input processing flags.
#[derive(Debug, Clone, Copy, PartialEq, Eq, Structural)]
pub struct InputModes {
    /// A break condition raises an interrupt.
    pub brkint: bool,
    /// Carriage return is translated to newline.
    pub icrnl: bool,
    /// Newline is translated to carriage return.
    pub inlcr: bool,
    /// Parity checking is enabled.
    pub inpck: bool,
    /// The eighth bit of each input byte is stripped.
    pub istrip: bool,
    /// Software flow control (ctrl-s, ctrl-q) on output.
    pub ixon: bool,
    /// Input is UTF-8 (for character erase in canonical mode).
    pub iutf8: bool,
    /// The remaining bits of the input word, as captured.
    pub other: u32,
}

/// Output processing flags.
#[derive(Debug, Clone, Copy, PartialEq, Eq, Structural)]
pub struct OutputModes {
    /// Output post-processing (such as newline to carriage return and
    /// newline).
    pub opost: bool,
    /// The remaining bits of the output word, as captured.
    pub other: u32,
}

/// Hardware control flags.
#[derive(Debug, Clone, Copy, PartialEq, Eq, Structural)]
pub struct ControlModes {
    /// Character size.
    pub char_size: CharSize,
    /// The remaining bits of the control word, as captured.
    pub other: u32,
}

/// Local (line discipline) flags.
#[derive(Debug, Clone, Copy, PartialEq, Eq, Structural)]
pub struct LocalModes {
    /// Typed characters are echoed.
    pub echo: bool,
    /// Newline is echoed even when `echo` is off.
    pub echonl: bool,
    /// Canonical (line-buffered, editable) input.
    pub icanon: bool,
    /// Extended input processing (such as ctrl-v).
    pub iexten: bool,
    /// Interrupt, quit and suspend keys raise signals.
    pub isig: bool,
    /// The remaining bits of the local word, as captured.
    pub other: u32,
}

/// A snapshot of a terminal's attributes.
#[derive(Debug, Clone, Copy)]
pub struct Termios {
    pub input: InputModes,
    pub output: OutputModes,
    pub control: ControlModes,
    pub local: LocalModes,
    /// Minimum number of bytes for a non-canonical read to return.
    pub min_read: u8,
    /// Timeout of a non-canonical read, in tenths of a second.
    pub read_timeout: u8,
    /// The control characters, as captured; the slots of `min_read` and
    /// `read_timeout` are taken from those fields instead.
    pub control_chars: [u8; 32],
    /// Line discipline.
    pub line: u8,
    /// Input baud rate.
    pub input_speed: u32,
    /// Output baud rate.
    pub output_speed: u32,
}

impl PartialEq for Termios {
    fn eq(&self, o: &Termios) -> (r: bool) {
        if !(self.input == o.input && self.output == o.output && self.control == o.control
            && self.local == o.local && self.min_read == o.min_read && self.read_timeout
            == o.read_timeout && self.line == o.line && self.input_speed == o.input_speed
            && self.output_speed == o.output_speed) {
            return false;
        }
        let mut i: usize = 0;
        while i < 32
            invariant
                i <= 32,
                forall|j: int| 0 <= j < i ==> self.control_chars[j] == o.control_chars[j],
            decreases 32 - i,
        {
            if self.control_chars[i] != o.control_chars[i] {
                return false;
            }
            i = i + 1;
        }
        assert(self.control_chars =~= o.control_chars);
        true
    }
}

impl vstd::std_specs::cmp::PartialEqSpecImpl for Termios {
    open spec fn obeys_eq_spec() -> bool {
        true
    }

    open spec fn eq_spec(&self, o: &Termios) -> bool {
        *self == *o
    }
}

impl Eq for Termios {

}

/// A named mode transform.
#[derive(Debug, Clone, Copy, PartialEq, Eq, Structural)]
pub enum Mode {
    Raw,
    Cooked,
    Password,
    EchoOn,
    EchoOff,
    OutputProcessingOn,
    OutputProcessingOff,
    FlowControlOn,
    FlowControlOff,
    /// An input timeout of the given number of milliseconds.
    InputTimeout(u128),
    NoInputTimeout,
}

/// Raw mode: every byte reaches the reader untouched. Flow control, input
/// translation, break handling, parity checking, high-bit stripping, echo,
/// canonical input, extended processing, signal keys and output processing
/// are off, and characters are eight bits wide.
pub open spec fn raw(t: Termios) -> Termios {
    Termios {
        input: InputModes {
            brkint: false,
            icrnl: false,
            inlcr: false,
            inpck: false,
            istrip: false,
            ixon: false,
            ..t.input
        },
        output: OutputModes { opost: false, ..t.output },
        control: ControlModes { char_size: CharSize::Eight, ..t.control },
        local: LocalModes { echo: false, icanon: false, iexten: false, isig: false, ..t.local },
        ..t
    }
}

/// Cooked mode, best effort: echo, newline echo, canonical input and UTF-8
/// input handling are on; nothing else is restored.
pub open spec fn cooked(t: Termios) -> Termios {
    Termios {
        input: InputModes { iutf8: true, ..t.input },
        local: LocalModes { echo: true, echonl: true, icanon: true, ..t.local },
        ..t
    }
}

/// Password mode: typed characters are not echoed, newlines are, and input
/// stays canonical.
pub open spec fn password(t: Termios) -> Termios {
    Termios { local: LocalModes { echo: false, echonl: true, icanon: true, ..t.local }, ..t }
}

/// Echo and newline echo set to `on`.
pub open spec fn with_echo(t: Termios, on: bool) -> Termios {
    Termios { local: LocalModes { echo: on, echonl: on, ..t.local }, ..t }
}

/// Output processing set to `on`.
pub open spec fn with_output_processing(t: Termios, on: bool) -> Termios {
    Termios { output: OutputModes { opost: on, ..t.output }, ..t }
}

/// Software flow control set to `on`.
pub open spec fn with_flow_control(t: Termios, on: bool) -> Termios {
    Termios { input: InputModes { ixon: on, ..t.input }, ..t }
}

/// A timeout of `millis` milliseconds in whole tenths of a second, rounded
/// down and clamped to the range 1 to 255.
pub open spec fn timeout_tenths(millis: int) -> u8 {
    if millis / 100 < 1 {
        1
    } else if millis / 100 > 255 {
        255
    } else {
        (millis / 100) as u8
    }
}

/// A read returns as soon as one byte arrives or after `millis`
/// milliseconds (clamped), whichever comes first.
pub open spec fn with_input_timeout(t: Termios, millis: int) -> Termios {
    Termios { min_read: 0, read_timeout: timeout_tenths(millis), ..t }
}

/// A read blocks until one byte arrives.
pub open spec fn without_input_timeout(t: Termios) -> Termios {
    Termios { min_read: 1, read_timeout: 0, ..t }
}

/// The snapshot that the named transform makes of `t`.
pub open spec fn apply(t: Termios, m: Mode) -> Termios {
    match m {
        Mode::Raw => raw(t),
        Mode::Cooked => cooked(t),
        Mode::Password => password(t),
        Mode::EchoOn => with_echo(t, true),
        Mode::EchoOff => with_echo(t, false),
        Mode::OutputProcessingOn => with_output_processing(t, true),
        Mode::OutputProcessingOff => with_output_processing(t, false),
        Mode::FlowControlOn => with_flow_control(t, true),
        Mode::FlowControlOff => with_flow_control(t, false),
        Mode::InputTimeout(millis) => with_input_timeout(t, millis as int),
        Mode::NoInputTimeout => without_input_timeout(t),
    }
}

/// Cooked mode is no inverse of raw mode: some snapshot is not brought back
/// by raw mode followed by cooked mode (one with flow control on, which raw
/// mode turns off and cooked mode leaves off).
pub proof fn lemma_cooked_does_not_undo_raw()
    ensures
        exists|t: Termios| #[trigger] cooked(raw(t)) != t,
{
    let any: Termios = arbitrary();
    let t = Termios { input: InputModes { ixon: true, ..any.input }, ..any };
    assert(cooked(raw(t)).input.ixon != t.input.ixon);
}

} // verus!
