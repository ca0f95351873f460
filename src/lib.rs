//! Terminal mode control for interactive command-line programs: attribute
//! snapshots and the mode transforms applied to them, a session that keeps
//! the original and working snapshots, keystroke decoding, and a secure,
//! zeroizing buffer for secret line input.

mod input;
pub mod keystroke;
pub mod layout;
pub mod password;
pub mod prompt;
pub mod term;
pub mod termios;

pub use layout::{FlagLayout, RawTermios};
pub use keystroke::{get_raw_keystroke, keystroke_from_read, Keystroke};
pub use password::{LineProgress, Password, ReadLineError, PASSWORD_BUFFER_LEN};
pub use prompt::{menu_choice, menu_hotkeys, underscored_heading, yn_choice, MenuError};
pub use term::{bracket_outcome, Commit, SetAction, Term};
pub use termios::{CharSize, ControlModes, InputModes, LocalModes, Mode, OutputModes, Termios};
