use vstd::prelude::*;
use vstd::string::StringSliceAdditionalSpecFns;
use vstd::utf8::encode_utf8;

verus! {

/// Carriage return and line feed as bytes.
pub open spec fn crlf() -> Seq<u8> {
    seq![13u8, 10u8]
}

/// The escape sequence that clears the screen.
pub open spec fn clear_screen() -> Seq<u8> {
    seq![27u8, 91u8, 50u8, 74u8]
}

/// The escape sequence that moves the cursor to the top left corner.
pub open spec fn cursor_home() -> Seq<u8> {
    seq![27u8, 91u8, 72u8]
}

/// `n` rows, each `header` and a line end.
pub open spec fn rows(header: Seq<u8>, n: nat) -> Seq<u8>
    decreases n,
{
    if n == 0 {
        Seq::empty()
    } else {
        rows(header, (n - 1) as nat) + header + crlf()
    }
}

/// The rows marker: a tilde.
pub open spec fn row_marker() -> Seq<u8> {
    encode_utf8(seq!['~'])
}

/// The rows drawn on a refresh.
pub const SCREEN_ROWS: usize = 24;

/// The bytes a refresh writes: clear, home, one more row than `SCREEN_ROWS`, home.
pub open spec fn refresh_bytes() -> Seq<u8> {
    clear_screen() + cursor_home() + rows(row_marker(), (SCREEN_ROWS + 1) as nat) + cursor_home()
}

/// Output on its way to standard output: what was written and not yet handed
/// over to be sent.
pub struct Stdout {
    pending: Vec<u8>,
}

impl View for Stdout {
    type V = Seq<u8>;

    closed spec fn view(&self) -> Seq<u8> {
        self.pending@
    }
}

impl Stdout {
    /// Output with nothing written.
    pub fn new() -> (r: Stdout)
        ensures
            r@ == Seq::<u8>::empty(),
    {
        Stdout { pending: Vec::new() }
    }

    /// Writes `bytes` after what was written before.
    pub fn write_flush(&mut self, bytes: &[u8])
        ensures
            final(self)@ == old(self)@ + bytes@,
    {
        let mut i: usize = 0;
        while i < bytes.len()
            invariant
                i <= bytes@.len(),
                self@ == old(self)@ + bytes@.subrange(0, i as int),
            decreases bytes@.len() - i,
        {
            self.pending.push(bytes[i]);
            i = i + 1;
            assert(self@ =~= old(self)@ + bytes@.subrange(0, i as int));
        }
        assert(bytes@.subrange(0, i as int) =~= bytes@);
    }

    /// Hands over what was written, leaving the output empty.
    pub fn take_pending(&mut self) -> (r: Vec<u8>)
        ensures
            r@ == old(self)@,
            final(self)@ == Seq::<u8>::empty(),
    {
        let mut taken = Vec::new();
        std::mem::swap(&mut taken, &mut self.pending);
        taken
    }
}

/// Writes `header` and a line end, `window_height + 1` times.
pub fn editor_draw_row(stdout: &mut Stdout, header: &str, window_height: usize)
    ensures
        final(stdout)@ == old(stdout)@ + rows(header.spec_bytes(), window_height as nat + 1),
{
    let line_end: [u8; 2] = [13, 10];
    let mut i: usize = 0;
    loop
        invariant_except_break
            i <= window_height,
            stdout@ == old(stdout)@ + rows(header.spec_bytes(), i as nat),
        invariant
            line_end@ == crlf(),
        ensures
            stdout@ == old(stdout)@ + rows(header.spec_bytes(), window_height as nat + 1),
        decreases window_height - i,
    {
        stdout.write_flush(header.as_bytes());
        stdout.write_flush(&line_end);
        assert(stdout@ =~= old(stdout)@ + rows(header.spec_bytes(), i as nat + 1));
        if i == window_height {
            break;
        }
        i = i + 1;
    }
}

/// Clears the screen and draws the rows marker down its left edge, leaving the
/// cursor at the top left corner.
pub fn editor_refresh_screen(stdout: &mut Stdout)
    ensures
        final(stdout)@ == old(stdout)@ + refresh_bytes(),
{
    let clear: [u8; 4] = [27, 91, 50, 74];
    let home: [u8; 3] = [27, 91, 72];
    assert(clear@ =~= clear_screen());
    assert(home@ =~= cursor_home());
    stdout.write_flush(&clear);
    stdout.write_flush(&home);
    let marker = "~";
    proof {
        reveal_strlit("~");
        assert(marker@ =~= seq!['~']);
    }
    editor_draw_row(stdout, marker, SCREEN_ROWS);
    stdout.write_flush(&home);
    assert(stdout@ =~= old(stdout)@ + refresh_bytes());
}

} // verus!
