//! A line writer for the terminal: text is gathered a line at a time, with
//! ANSI color and format codes where they are allowed, and each complete
//! line is handed on at once, followed by a reset of the style.
//!
//! What the writer hands on is kept until the caller takes it (see
//! `take_sent`) to pass it to the terminal.

use vstd::prelude::*;
use vstd::string::StringSliceAdditionalSpecFns;

verus! {

/// Black text.
pub const BLACK: &'static str = "\x1b[30m";
/// Red text.
pub const RED: &'static str = "\x1b[31m";
/// Green text.
pub const GREEN: &'static str = "\x1b[32m";
/// Yellow text.
pub const YELLOW: &'static str = "\x1b[33m";
/// Blue text.
pub const BLUE: &'static str = "\x1b[34m";
/// Magenta text.
pub const MAGENTA: &'static str = "\x1b[35m";
/// Cyan text.
pub const CYAN: &'static str = "\x1b[36m";
/// White text.
pub const WHITE: &'static str = "\x1b[37m";
/// Black background.
pub const BG_BLACK: &'static str = "\x1b[40m";
/// Red background.
pub const BG_RED: &'static str = "\x1b[41m";
/// Green background.
pub const BG_GREEN: &'static str = "\x1b[42m";
/// Yellow background.
pub const BG_YELLOW: &'static str = "\x1b[43m";
/// Blue background.
pub const BG_BLUE: &'static str = "\x1b[44m";
/// Magenta background.
pub const BG_MAGENTA: &'static str = "\x1b[45m";
/// Cyan background.
pub const BG_CYAN: &'static str = "\x1b[46m";
/// White background.
pub const BG_WHITE: &'static str = "\x1b[47m";
/// Bold text.
pub const BOLD: &'static str = "\x1b[1m";
/// Dim text.
pub const DIM: &'static str = "\x1b[2m";
/// Italic text.
pub const ITALIC: &'static str = "\x1b[3m";
/// Underlined text.
pub const UNDERLINED: &'static str = "\x1b[4m";
/// Back to the plain style.
pub const RESET: &'static str = "\x1b[0m";

/// The bytes of the reset code.
pub open spec fn reset_bytes() -> Seq<u8> {
    seq![0x1bu8, 0x5bu8, 0x30u8, 0x6du8]
}

/// A writer that gathers a line before handing it on.
pub struct DisplayLineWriter {
    sent: Vec<u8>,
    buff: Vec<u8>,
    use_color: bool,
    use_format: bool,
}

/// The bytes up to and including the first newline, or all of them.
pub open spec fn first_piece(b: Seq<u8>) -> Seq<u8>
    decreases b.len(),
{
    if b.len() == 0 {
        b
    } else if b[0] == 0x0au8 {
        seq![b[0]]
    } else {
        seq![b[0]] + first_piece(b.drop_first())
    }
}

/// What a writer's sent bytes and pending line become after the bytes `b`
/// are written to it: each piece that ends a line is handed on with the
/// pending text, and the next line starts with the `reset` bytes.
pub open spec fn after_write(sent: Seq<u8>, buff: Seq<u8>, b: Seq<u8>, reset: Seq<u8>) -> (
    Seq<u8>,
    Seq<u8>,
)
    decreases b.len(),
{
    if b.len() == 0 {
        (sent, buff)
    } else {
        let p = first_piece(b);
        let line = buff + p;
        if p.last() == 0x0au8 {
            proof {
                lemma_first_piece(b);
            }
            after_write(sent + line, reset, b.skip(p.len() as int), reset)
        } else {
            (sent, line)
        }
    }
}

/// Facts about `first_piece`.
pub proof fn lemma_first_piece(b: Seq<u8>)
    ensures
        b.len() > 0 ==> 0 < first_piece(b).len() <= b.len(),
        first_piece(b) == b.take(first_piece(b).len() as int),
        first_piece(b).len() < b.len() ==> first_piece(b).last() == 0x0au8,
        forall|i: int| 0 <= i < first_piece(b).len() - 1 ==> #[trigger] b[i] != 0x0au8,
    decreases b.len(),
{
    if b.len() > 0 && b[0] != 0x0au8 {
        lemma_first_piece(b.drop_first());
        let r = first_piece(b.drop_first());
        assert(first_piece(b) == seq![b[0]] + r);
        assert(seq![b[0]] + r =~= b.take(r.len() as int + 1));
        assert forall|i: int| 0 <= i < first_piece(b).len() - 1 implies #[trigger] b[i] != 0x0au8 by {
            if i > 0 {
                assert(b[i] == b.drop_first()[i - 1]);
            }
        }
    } else if b.len() > 0 {
        assert(seq![b[0]] =~= b.take(1));
    }
}

impl DisplayLineWriter {
    /// Everything handed on and not taken yet.
    pub closed spec fn handed_on(&self) -> Seq<u8> {
        self.sent@
    }

    /// The line gathered so far.
    pub closed spec fn pending(&self) -> Seq<u8> {
        self.buff@
    }

    /// Whether color codes are allowed.
    pub closed spec fn colors(&self) -> bool {
        self.use_color
    }

    /// Whether format codes are allowed.
    pub closed spec fn formats(&self) -> bool {
        self.use_format
    }

    /// The bytes a style code adds: its own where colors or formats are
    /// allowed, none otherwise.
    pub open spec fn ansi(&self, code: Seq<u8>) -> Seq<u8> {
        if self.colors() || self.formats() {
            code
        } else {
            seq![]
        }
    }

    /// A writer with nothing gathered or sent, that allows color codes where
    /// `allow_color` holds and format codes where `allow_format` holds.
    pub fn new(allow_color: bool, allow_format: bool) -> (w: Self)
        ensures
            w.handed_on().len() == 0,
            w.pending().len() == 0,
            w.colors() == allow_color,
            w.formats() == allow_format,
    {
        DisplayLineWriter {
            sent: Vec::new(),
            buff: Vec::with_capacity(1024),
            use_color: allow_color,
            use_format: allow_format,
        }
    }

    /// Adds a style code to the line, where codes are allowed.
    fn write_ansi(&mut self, code: &str) -> (r: Result<(), String>)
        ensures
            r is Ok,
            final(self).pending() == old(self).pending() + old(self).ansi(code.spec_bytes()),
            final(self).handed_on() == old(self).handed_on(),
            final(self).colors() == old(self).colors(),
            final(self).formats() == old(self).formats(),
    {
        if self.use_color || self.use_format {
            self.buff.extend_from_slice(code.as_bytes());
            assert(self.buff@ =~= old(self).buff@ + code.spec_bytes());
        } else {
            assert(self.buff@ =~= old(self).buff@ + Seq::<u8>::empty());
        }
        Ok(())
    }

    /// Adds a color code, and then a format code if one is given, to the
    /// line, where codes are allowed.
    pub fn set_style(&mut self, color: &str, format: Option<&str>) -> (r: Result<(), String>)
        ensures
            r is Ok,
            final(self).pending() == old(self).pending() + old(self).ansi(color.spec_bytes())
                + match format {
                Some(s) => old(self).ansi(s.spec_bytes()),
                None => Seq::<u8>::empty(),
            },
            final(self).handed_on() == old(self).handed_on(),
            final(self).colors() == old(self).colors(),
            final(self).formats() == old(self).formats(),
    {
        let _ = self.write_ansi(color);
        match format {
            Some(s) => {
                let _ = self.write_ansi(s);
            },
            None => {
                assert(self.buff@ =~= self.buff@ + Seq::<u8>::empty());
            },
        }
        Ok(())
    }

    /// Background colors are not supported: nothing changes.
    pub fn set_background(&mut self, background: &str) -> (r: Result<(), String>)
        ensures
            r is Ok,
            *final(self) == *old(self),
    {
        Ok(())
    }

    /// Adds the reset code to the line, where codes are allowed.
    pub fn reset_style(&mut self) -> (r: Result<(), String>)
        ensures
            r is Ok,
            final(self).pending() == old(self).pending() + old(self).ansi(reset_bytes()),
            final(self).handed_on() == old(self).handed_on(),
            final(self).colors() == old(self).colors(),
            final(self).formats() == old(self).formats(),
    {
        proof {
            reveal_strlit("\x1b[0m");
        }
        assert(RESET.spec_bytes() =~= reset_bytes()) by {
            vstd::string::is_ascii_spec_bytes(RESET);
        }
        self.write_ansi(RESET)
    }

    /// Hands on the gathered line, if there is one, and starts the next
    /// line with the reset code, where codes are allowed.
    pub fn flush_line(&mut self) -> (r: Result<(), String>)
        ensures
            r is Ok,
            final(self).handed_on() == old(self).handed_on() + old(self).pending(),
            final(self).pending() == old(self).ansi(reset_bytes()),
            final(self).colors() == old(self).colors(),
            final(self).formats() == old(self).formats(),
    {
        if self.buff.len() > 0 {
            self.sent.append(&mut self.buff);
        } else {
            assert(self.sent@ =~= old(self).sent@ + old(self).buff@);
        }
        self.reset_style()
    }

    /// Writes bytes: each piece up to a newline joins the line, and a
    /// complete line is handed on (see `flush_line`). All the bytes count
    /// as written.
    pub fn write(&mut self, buf: &[u8]) -> (r: Result<usize, String>)
        ensures
            r == Ok::<usize, String>(buf@.len() as usize),
            (final(self).handed_on(), final(self).pending()) == after_write(
                old(self).handed_on(),
                old(self).pending(),
                buf@,
                old(self).ansi(reset_bytes()),
            ),
            final(self).colors() == old(self).colors(),
            final(self).formats() == old(self).formats(),
    {
        let ghost reset = self.ansi(reset_bytes());
        let n = buf.len();
        let mut i: usize = 0;
        assert(buf@.skip(0) =~= buf@);
        while i < n
            invariant
                i <= n == buf@.len(),
                self.colors() == old(self).colors(),
                self.formats() == old(self).formats(),
                reset == self.ansi(reset_bytes()),
                after_write(self.sent@, self.buff@, buf@.skip(i as int), reset) == after_write(
                    old(self).sent@,
                    old(self).buff@,
                    buf@,
                    reset,
                ),
            decreases n - i,
        {
            let ghost rest = buf@.skip(i as int);
            let ghost sent0 = self.sent@;
            let ghost buff0 = self.buff@;
            let mut j = i;
            while j < n && buf[j] != 0x0au8
                invariant
                    i <= j <= n == buf@.len(),
                    forall|k: int| i <= k < j ==> buf@[k] != 0x0au8,
                decreases n - j,
            {
                j = j + 1;
            }
            let end = if j < n {
                j + 1
            } else {
                n
            };
            proof {
                lemma_first_piece(rest);
                let l = first_piece(rest).len() as int;
                if j < n {
                    assert(rest[j - i] == buf@[j as int]);
                    if l - 1 < j - i {
                        assert(rest[l - 1] == buf@[i + l - 1]);
                    }
                    if l - 1 > j - i {
                        assert(rest[j - i] != 0x0au8);
                    }
                } else {
                    if l < rest.len() {
                        assert(rest[l - 1] == buf@[i + l - 1]);
                    }
                }
                assert(rest.take(l) =~= buf@.subrange(i as int, end as int));
            }
            let ghost piece = buf@.subrange(i as int, end as int);
            self.buff.extend_from_slice(&buf[i..end]);
            assert(self.buff@ =~= buff0 + piece);
            assert(rest.skip(piece.len() as int) =~= buf@.skip(end as int));
            if j < n {
                assert(piece.last() == buf@[j as int]);
                let _ = self.flush_line();
            } else {
                assert(piece.last() == buf@[n - 1]);
                assert(buf@.skip(n as int) =~= Seq::<u8>::empty());
            }
            i = end;
        }
        Ok(n)
    }

    /// Takes the bytes handed on so far, to pass them to the terminal.
    pub fn take_sent(&mut self) -> (r: Vec<u8>)
        ensures
            r@ == old(self).handed_on(),
            final(self).handed_on().len() == 0,
            final(self).pending() == old(self).pending(),
            final(self).colors() == old(self).colors(),
            final(self).formats() == old(self).formats(),
    {
        let mut r: Vec<u8> = Vec::new();
        r.append(&mut self.sent);
        r
    }

    /// Hands on the gathered line (see `flush_line`).
    pub fn flush(&mut self) -> (r: Result<(), String>)
        ensures
            r is Ok,
            final(self).handed_on() == old(self).handed_on() + old(self).pending(),
            final(self).pending() == old(self).ansi(reset_bytes()),
            final(self).colors() == old(self).colors(),
            final(self).formats() == old(self).formats(),
    {
        self.flush_line()
    }
}

} // verus!
