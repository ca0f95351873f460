//! The terminal session: one input and one output handle, the snapshot
//! captured from the terminal and a working copy that the mode transforms
//! change. Committing a snapshot to the device is left to the caller, which
//! receives it as a [`Commit`].

use crate::termios::{
    cooked, password, raw, timeout_tenths, with_echo, with_flow_control, with_input_timeout,
    with_output_processing, without_input_timeout, apply, CharSize, Mode, Termios,
};
use crate::input::{flush_out, read_into, write_from};
use vstd::prelude::*;

verus! {

/// When a committed snapshot takes effect (`tcsetattr`'s `optional_actions`).
#[derive(Debug, Clone, Copy, PartialEq, Eq, Structural)]
pub enum SetAction {
    /// Once pending output is written; unread input is discarded.
    TCSAFLUSH,
    /// At once; buffers are not affected.
    TCSANOW,
    /// Once pending output is written; unread input is kept.
    TCSADRAIN,
}

/// A snapshot to be written to the terminal, and when it takes effect.
#[derive(Debug, Clone, Copy)]
pub struct Commit {
    pub action: SetAction,
    pub attributes: Termios,
}

/// What a session holds.
pub ghost struct Session<I, O> {
    pub input: I,
    pub output: O,
    /// The snapshot captured at construction or by the last `save`.
    pub original: Termios,
    /// The snapshot that the next `set` commits.
    pub working: Termios,
}

/// The session after the named transform: only the working snapshot
/// changes.
pub open spec fn transformed<I, O>(s: Session<I, O>, m: Mode) -> Session<I, O> {
    Session { working: apply(s.working, m), ..s }
}

/// The session after the transforms `ms`, applied in order.
pub open spec fn transformed_all<I, O>(s: Session<I, O>, ms: Seq<Mode>) -> Session<I, O>
    decreases ms.len(),
{
    if ms.len() == 0 {
        s
    } else {
        transformed(transformed_all(s, ms.drop_last()), ms.last())
    }
}

/// The session after `reset`: the working snapshot is the original again.
pub open spec fn after_reset<I, O>(s: Session<I, O>) -> Session<I, O> {
    Session { working: s.original, ..s }
}

/// A terminal session over an input handle and an output handle. The
/// output's terminal is the one whose attributes are captured and set.
#[derive(Debug, Clone)]
pub struct Term<I, O> {
    fd_out: O,
    fd_in: I,
    original: Termios,
    working: Termios,
}

impl<I, O> View for Term<I, O> {
    type V = Session<I, O>;

    closed spec fn view(&self) -> Session<I, O> {
        Session {
            input: self.fd_in,
            output: self.fd_out,
            original: self.original,
            working: self.working,
        }
    }
}

impl<I, O> Term<I, O> {
    /// A session over `input` and `output`, with `captured`, the attributes
    /// read from the output's terminal, as both its original and working
    /// snapshot.
    pub fn new(input: I, output: O, captured: Termios) -> (t: Self)
        ensures
            t@ == (Session { input, output, original: captured, working: captured }),
    {
        Term { fd_out: output, fd_in: input, original: captured, working: captured }
    }

    /// Takes `captured`, the attributes read again from the terminal, as the
    /// snapshot that `reset` restores, and as the working snapshot.
    pub fn save(&mut self, captured: Termios)
        ensures
            final(self)@ == (Session { original: captured, working: captured, ..old(self)@ }),
    {
        self.original = captured;
        self.working = captured;
    }

    /// The snapshot captured at construction or by the last `save`.
    pub fn original(&self) -> (r: &Termios)
        ensures
            *r == self@.original,
    {
        &self.original
    }

    /// The snapshot that the next `set` commits.
    pub fn working(&self) -> (r: &Termios)
        ensures
            *r == self@.working,
    {
        &self.working
    }

    /// The input handle.
    pub fn input(&mut self) -> (r: &mut I)
        ensures
            *r == old(self)@.input,
            final(self)@ == (Session { input: *final(r), ..old(self)@ }),
    {
        &mut self.fd_in
    }

    /// The output handle.
    pub fn output(&mut self) -> (r: &mut O)
        ensures
            *r == old(self)@.output,
            final(self)@ == (Session { output: *final(r), ..old(self)@ }),
    {
        &mut self.fd_out
    }

    /// Raw mode (see [`raw`]).
    pub fn raw_mode(&mut self) -> (r: &mut Self)
        ensures
            r@ == (Session { working: raw(old(self)@.working), ..old(self)@ }),
            final(self)@ == final(r)@,
    {
        self.working.input.brkint = false;
        self.working.input.icrnl = false;
        self.working.input.inlcr = false;
        self.working.input.inpck = false;
        self.working.input.istrip = false;
        self.working.input.ixon = false;
        self.working.output.opost = false;
        self.working.control.char_size = CharSize::Eight;
        self.working.local.echo = false;
        self.working.local.icanon = false;
        self.working.local.iexten = false;
        self.working.local.isig = false;
        self
    }

    /// Cooked mode, best effort (see [`cooked`]); only `reset` undoes every
    /// transform.
    pub fn cooked_mode(&mut self) -> (r: &mut Self)
        ensures
            r@ == (Session { working: cooked(old(self)@.working), ..old(self)@ }),
            final(self)@ == final(r)@,
    {
        self.working.input.iutf8 = true;
        self.working.local.echo = true;
        self.working.local.echonl = true;
        self.working.local.icanon = true;
        self
    }

    /// Turns off output processing, such as translating newline into
    /// carriage return and newline.
    pub fn disable_output_processing(&mut self) -> (r: &mut Self)
        ensures
            r@ == (Session { working: with_output_processing(old(self)@.working, false), ..old(self)@ }),
            final(self)@ == final(r)@,
    {
        self.working.output.opost = false;
        self
    }

    /// Turns on output processing.
    pub fn enable_output_processing(&mut self) -> (r: &mut Self)
        ensures
            r@ == (Session { working: with_output_processing(old(self)@.working, true), ..old(self)@ }),
            final(self)@ == final(r)@,
    {
        self.working.output.opost = true;
        self
    }

    /// Turns on echo and newline echo.
    pub fn enable_echo(&mut self) -> (r: &mut Self)
        ensures
            r@ == (Session { working: with_echo(old(self)@.working, true), ..old(self)@ }),
            final(self)@ == final(r)@,
    {
        self.working.local.echo = true;
        self.working.local.echonl = true;
        self
    }

    /// Turns off echo and newline echo. To prompt for a password, use
    /// `password_mode` instead.
    pub fn disable_echo(&mut self) -> (r: &mut Self)
        ensures
            r@ == (Session { working: with_echo(old(self)@.working, false), ..old(self)@ }),
            final(self)@ == final(r)@,
    {
        self.working.local.echo = false;
        self.working.local.echonl = false;
        self
    }

    /// Password mode (see [`password`]).
    pub fn password_mode(&mut self) -> (r: &mut Self)
        ensures
            r@ == (Session { working: password(old(self)@.working), ..old(self)@ }),
            final(self)@ == final(r)@,
    {
        self.working.local.echo = false;
        self.working.local.echonl = true;
        self.working.local.icanon = true;
        self
    }

    /// Turns off output flow control (ctrl-s and ctrl-q).
    pub fn disable_flow_control(&mut self) -> (r: &mut Self)
        ensures
            r@ == (Session { working: with_flow_control(old(self)@.working, false), ..old(self)@ }),
            final(self)@ == final(r)@,
    {
        self.working.input.ixon = false;
        self
    }

    /// Turns on output flow control (ctrl-s and ctrl-q).
    pub fn enable_flow_control(&mut self) -> (r: &mut Self)
        ensures
            r@ == (Session { working: with_flow_control(old(self)@.working, true), ..old(self)@ }),
            final(self)@ == final(r)@,
    {
        self.working.input.ixon = true;
        self
    }

    /// Sets an input timeout of `millis` milliseconds, in whole tenths of a
    /// second: under 0.1 s gives 0.1 s, over 25.5 s gives 25.5 s. A read
    /// then returns after one byte or when the timeout expires. Useful only
    /// in raw mode.
    pub fn input_timeout(&mut self, millis: u128) -> (r: &mut Self)
        ensures
            r@ == (Session { working: with_input_timeout(old(self)@.working, millis as int), ..old(self)@ }),
            final(self)@ == final(r)@,
    {
        let tenths = millis / 100;
        let tenths: u8 = if tenths == 0 {
            1
        } else if tenths <= 255 {
            tenths as u8
        } else {
            255
        };
        assert(tenths == timeout_tenths(millis as int));
        self.working.min_read = 0;
        self.working.read_timeout = tenths;
        self
    }

    /// Removes an input timeout: a read blocks until one byte arrives.
    pub fn disable_input_timeout(&mut self) -> (r: &mut Self)
        ensures
            r@ == (Session { working: without_input_timeout(old(self)@.working), ..old(self)@ }),
            final(self)@ == final(r)@,
    {
        self.working.min_read = 1;
        self.working.read_timeout = 0;
        self
    }

    /// Hands the working snapshot to `f` and keeps what it returns.
    pub fn with_termios<F: FnOnce(Termios) -> Termios>(&mut self, f: F)
        requires
            f.requires((old(self)@.working,)),
        ensures
            f.ensures((old(self)@.working,), final(self)@.working),
            final(self)@ == (Session { working: final(self)@.working, ..old(self)@ }),
    {
        self.working = f(self.working);
    }

    /// Applies the named transform to the working snapshot.
    pub fn transform(&mut self, m: Mode) -> (r: &mut Self)
        ensures
            r@ == transformed(old(self)@, m),
            final(self)@ == final(r)@,
    {
        match m {
            Mode::Raw => self.raw_mode(),
            Mode::Cooked => self.cooked_mode(),
            Mode::Password => self.password_mode(),
            Mode::EchoOn => self.enable_echo(),
            Mode::EchoOff => self.disable_echo(),
            Mode::OutputProcessingOn => self.enable_output_processing(),
            Mode::OutputProcessingOff => self.disable_output_processing(),
            Mode::FlowControlOn => self.enable_flow_control(),
            Mode::FlowControlOff => self.disable_flow_control(),
            Mode::InputTimeout(millis) => self.input_timeout(millis),
            Mode::NoInputTimeout => self.disable_input_timeout(),
        }
    }

    /// The snapshot to write to the terminal: the working one.
    pub fn set(&self, action: SetAction) -> (c: Commit)
        ensures
            c == (Commit { action, attributes: self@.working }),
    {
        Commit { action, attributes: self.working }
    }

    /// Makes the working snapshot the original again, and returns it to be
    /// written to the terminal.
    pub fn reset(&mut self, action: SetAction) -> (c: Commit)
        ensures
            final(self)@ == after_reset(old(self)@),
            c == (Commit { action, attributes: old(self)@.original }),
    {
        self.working = self.original;
        self.set(action)
    }
}

/// A session reads from its input handle.
impl<I: std::io::Read, O> std::io::Read for Term<I, O> {
    fn read(&mut self, buf: &mut [u8]) -> std::io::Result<usize> {
        read_into(&mut self.fd_in, buf)
    }
}

/// A session writes to its output handle.
impl<I, O: std::io::Write> std::io::Write for Term<I, O> {
    fn write(&mut self, buf: &[u8]) -> std::io::Result<usize> {
        write_from(&mut self.fd_out, buf)
    }

    fn flush(&mut self) -> std::io::Result<()> {
        flush_out(&mut self.fd_out)
    }
}

/// The outcome of a read made between setting a mode and restoring the
/// original one: the read's error if it failed (a failed restore does not
/// hide it), else the restore's error if that failed, else what was read.
pub fn bracket_outcome<T, E>(read: Result<T, E>, restore: Result<(), E>) -> (r: Result<T, E>)
    ensures
        r == match read {
            Err(e) => Err(e),
            Ok(v) => match restore {
                Err(e) => Err(e),
                Ok(_) => Ok(v),
            },
        },
{
    match read {
        Err(e) => Err(e),
        Ok(v) => match restore {
            Err(e) => Err(e),
            Ok(_) => Ok(v),
        },
    }
}

/// Transforms change only the working snapshot: the original and the
/// handles stay as they were.
pub proof fn lemma_transforms_keep_original<I, O>(s: Session<I, O>, ms: Seq<Mode>)
    ensures
        transformed_all(s, ms) == (Session { working: transformed_all(s, ms).working, ..s }),
    decreases ms.len(),
{
    if ms.len() > 0 {
        lemma_transforms_keep_original(s, ms.drop_last());
    }
}

/// Whatever sequence of transforms is applied to a session just created or
/// saved (its working snapshot equal to its original one), `reset` brings
/// the session back to exactly what it was, and commits exactly the
/// captured snapshot.
pub proof fn lemma_reset_restores_captured<I, O>(
    fresh: Session<I, O>,
    ms: Seq<Mode>,
    action: SetAction,
)
    requires
        fresh.working == fresh.original,
    ensures
        after_reset(transformed_all(fresh, ms)) == fresh,
        (Commit { action, attributes: transformed_all(fresh, ms).original }) == (Commit {
            action,
            attributes: fresh.original,
        }),
{
    lemma_transforms_keep_original(fresh, ms);
}

} // verus!
