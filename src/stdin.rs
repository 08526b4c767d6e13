use vstd::prelude::*;
use crate::error::Error;
use crate::mode::{RawModeBits, TerminalMode};

verus! {

#[verifier::external_type_specification]
#[verifier::external_body]
pub struct ExTermios(termios::Termios);

/// The descriptor of the process's standard input.
pub const STDIN_FD: i32 = 0;

/// Relies on `termios::Termios::from_fd`: the descriptor's current settings, or the
/// error that `tcgetattr` reported.
#[verifier::external_body]
fn read_settings(fd: i32) -> (r: Result<termios::Termios, std::io::Error>) {
    termios::Termios::from_fd(fd)
}

/// The four flag words that a `termios::Termios` holds in its public fields
/// `c_iflag`, `c_oflag`, `c_cflag` and `c_lflag`.
pub uninterp spec fn flags_of(t: termios::Termios) -> TerminalMode;

/// Everything else that a `termios::Termios` holds: its line discipline, its control
/// characters `c_cc` and its speeds.
pub uninterp spec fn rest_of(t: termios::Termios) -> Seq<int>;

/// Relies on the public flag fields of `termios::Termios`: copies the four flag words.
#[verifier::external_body]
fn mode_of(t: &termios::Termios) -> (r: TerminalMode)
    ensures
        r == flags_of(*t),
{
    TerminalMode {
        input_flags: t.c_iflag,
        output_flags: t.c_oflag,
        control_flags: t.c_cflag,
        local_flags: t.c_lflag,
    }
}

/// Relies on the public flag fields of `termios::Termios`: a copy of `t` whose four
/// flag words are those of `m`.
#[verifier::external_body]
fn with_mode(t: &termios::Termios, m: &TerminalMode) -> (r: termios::Termios)
    ensures
        flags_of(r) == *m,
        rest_of(r) == rest_of(*t),
        flags_of(*t) == *m ==> r == *t,
{
    let mut r = *t;
    r.c_iflag = m.input_flags;
    r.c_oflag = m.output_flags;
    r.c_cflag = m.control_flags;
    r.c_lflag = m.local_flags;
    r
}

/// Relies on the flag constants of `termios` for the platform it was built for;
/// each of them is a nonzero bit on every platform the crate supports.
#[verifier::external_body]
fn platform_bits() -> (r: RawModeBits)
    ensures
        r.nonzero(),
{
    RawModeBits {
        echo: termios::ECHO,
        canonical: termios::ICANON,
        extended: termios::IEXTEN,
        signals: termios::ISIG,
        cr_to_nl: termios::ICRNL,
        flow_control: termios::IXON,
        post_process: termios::OPOST,
    }
}

/// Relies on `termios::tcsetattr` with `TCSAFLUSH`: applies `t` to the descriptor
/// after pending output is written and unread input is discarded. A failure is
/// returned as the error that the system call reported; nothing panics.
#[verifier::external_body]
fn apply_settings(fd: i32, t: &termios::Termios) -> (r: Result<(), std::io::Error>)
    opens_invariants none
    no_unwind
{
    termios::tcsetattr(fd, termios::TCSAFLUSH, t)
}

/// Ends the process at once, without unwinding.
/// Relies on `std::alloc::handle_alloc_error`: with std's default handler, the one a
/// stable program has, it writes a line to standard error and aborts the process.
#[verifier::external_body]
fn end_process()
    opens_invariants none
    no_unwind
{
    std::alloc::handle_alloc_error(std::alloc::Layout::new::<u8>());
}

/// What one single-byte read of a stream means: zero bytes is the end of input,
/// otherwise the byte in the buffer; a failed read is an I/O error.
pub open spec fn byte_read(outcome: Result<usize, std::io::Error>, buffer: [u8; 1]) -> Result<Option<u8>, Error> {
    match outcome {
        Ok(n) => if n == 0 {
            Ok(None)
        } else {
            Ok(Some(buffer@[0]))
        },
        Err(e) => Err(Error::IoError(e)),
    }
}

/// Interprets a one-byte read: `outcome` is what the read reported and `buffer`
/// the buffer it read into.
pub fn read_byte(outcome: Result<usize, std::io::Error>, buffer: [u8; 1]) -> (r: Result<Option<u8>, Error>)
    ensures
        r == byte_read(outcome, buffer),
{
    match outcome {
        Ok(n) => if n == 0 {
            Ok(None)
        } else {
            Ok(Some(buffer[0]))
        },
        Err(e) => Err(Error::from(e)),
    }
}

/// Standard input held in raw mode; the settings it had before are put back when
/// the handle is dropped.
pub struct StdinRawMode {
    fd: i32,
    original_terminal: termios::Termios,
    original: TerminalMode,
    working: TerminalMode,
    applied: Ghost<termios::Termios>,
    bits: RawModeBits,
}

impl StdinRawMode {
    /// The descriptor the handle configures.
    pub closed spec fn fd(&self) -> i32 {
        self.fd
    }

    /// The settings captured before any change; they are applied again on drop.
    pub closed spec fn original_terminal(&self) -> termios::Termios {
        self.original_terminal
    }

    /// The flag words of the captured settings.
    pub closed spec fn original_mode(&self) -> TerminalMode {
        self.original
    }

    /// The flag words of the raw-mode settings the handle applied.
    pub closed spec fn working_mode(&self) -> TerminalMode {
        self.working
    }

    /// The raw-mode settings that `enable` built from the captured ones and passed on
    /// to be applied.
    pub closed spec fn applied_terminal(&self) -> termios::Termios {
        self.applied@
    }

    /// The platform's raw-mode flags.
    pub closed spec fn bits(&self) -> RawModeBits {
        self.bits
    }

    /// Captures the settings of standard input and applies raw mode derived from
    /// them: the captured settings with the raw-mode flags cleared.
    pub fn enable() -> (r: Result<StdinRawMode, Error>)
        ensures
            r matches Ok(h) ==> {
                &&& h.fd() == STDIN_FD
                &&& h.original_mode() == flags_of(h.original_terminal())
                &&& h.working_mode() == h.original_mode().raw_spec(h.bits())
                &&& h.bits().nonzero()
                &&& flags_of(h.applied_terminal()) == h.working_mode()
                &&& rest_of(h.applied_terminal()) == rest_of(h.original_terminal())
                &&& h.working_mode() == h.original_mode() ==> h.applied_terminal()
                    == h.original_terminal()
            },
            r matches Err(e) ==> e is IoError,
    {
        let fd = STDIN_FD;
        let original_terminal = match read_settings(fd) {
            Ok(t) => t,
            Err(e) => return Err(Error::from(e)),
        };
        let original = mode_of(&original_terminal);
        let bits = platform_bits();
        let working = original.raw(&bits);
        let terminal = with_mode(&original_terminal, &working);
        match apply_settings(fd, &terminal) {
            Ok(()) => {},
            Err(e) => return Err(Error::from(e)),
        }
        Ok(StdinRawMode { fd, original_terminal, original, working, applied: Ghost(terminal), bits })
    }

    /// Interprets a one-byte read of the handle's stream; the handle, and so the
    /// settings it will restore, stay as they were whatever the read reported.
    pub fn read_byte(&mut self, outcome: Result<usize, std::io::Error>, buffer: [u8; 1]) -> (r: Result<Option<u8>, Error>)
        ensures
            r == byte_read(outcome, buffer),
            *final(self) == *old(self),
    {
        read_byte(outcome, buffer)
    }
}

impl Drop for StdinRawMode {
    /// Applies the captured settings again. A failure would leave the terminal
    /// unusable, so it is not passed over: the process ends at once.
    fn drop(&mut self)
        opens_invariants none
        no_unwind
    {
        match apply_settings(self.fd, &self.original_terminal) {
            Ok(()) => {},
            Err(_) => end_process(),
        }
    }
}

} // verus!
