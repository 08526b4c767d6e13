use vstd::prelude::*;

verus! {

/// The four flag words of a terminal's settings.
#[derive(Clone, Copy, Debug, PartialEq, Eq, Structural)]
pub struct TerminalMode {
    pub input_flags: termios::tcflag_t,
    pub output_flags: termios::tcflag_t,
    pub control_flags: termios::tcflag_t,
    pub local_flags: termios::tcflag_t,
}

/// Where the platform places each flag that raw mode clears.
#[derive(Clone, Copy, Debug, PartialEq, Eq, Structural)]
pub struct RawModeBits {
    /// Echo of typed characters (local flags).
    pub echo: termios::tcflag_t,
    /// Canonical, line-buffered input (local flags).
    pub canonical: termios::tcflag_t,
    /// Extended input processing (local flags).
    pub extended: termios::tcflag_t,
    /// Interrupt and suspend keys (local flags).
    pub signals: termios::tcflag_t,
    /// Translation of carriage return to newline (input flags).
    pub cr_to_nl: termios::tcflag_t,
    /// Start and stop flow-control keys (input flags).
    pub flow_control: termios::tcflag_t,
    /// Output post-processing (output flags).
    pub post_process: termios::tcflag_t,
}

impl RawModeBits {
    /// Every flag that raw mode clears is a real bit.
    pub open spec fn nonzero(self) -> bool {
        &&& self.echo != 0
        &&& self.canonical != 0
        &&& self.extended != 0
        &&& self.signals != 0
        &&& self.cr_to_nl != 0
        &&& self.flow_control != 0
        &&& self.post_process != 0
    }

    /// The input flags that raw mode clears.
    pub open spec fn input_mask(self) -> termios::tcflag_t {
        self.cr_to_nl | self.flow_control
    }

    /// The output flags that raw mode clears.
    pub open spec fn output_mask(self) -> termios::tcflag_t {
        self.post_process
    }

    /// The local flags that raw mode clears.
    pub open spec fn local_mask(self) -> termios::tcflag_t {
        self.echo | self.canonical | self.extended | self.signals
    }
}

impl TerminalMode {
    /// These settings with the raw-mode flags cleared and every other bit kept.
    pub open spec fn raw_spec(self, bits: RawModeBits) -> TerminalMode {
        TerminalMode {
            input_flags: self.input_flags & !bits.input_mask(),
            output_flags: self.output_flags & !bits.output_mask(),
            control_flags: self.control_flags,
            local_flags: self.local_flags & !bits.local_mask(),
        }
    }

    /// Derives the raw-mode settings from these ones.
    pub fn raw(&self, bits: &RawModeBits) -> (r: TerminalMode)
        ensures
            r == self.raw_spec(*bits),
    {
        TerminalMode {
            input_flags: self.input_flags & !(bits.cr_to_nl | bits.flow_control),
            output_flags: self.output_flags & !bits.post_process,
            control_flags: self.control_flags,
            local_flags: self.local_flags & !(bits.echo | bits.canonical | bits.extended
                | bits.signals),
        }
    }
}

} // verus!
