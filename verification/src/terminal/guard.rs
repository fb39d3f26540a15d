//! Keeps colors off the terminal that are too long for it.
//!
//! A program may set colors by an operating system command. The parser of `vte` reads a color `#…` by
//! cutting its characters in three and shifting each part by its length, which a machine word allows up to
//! a certain length only. The characters beyond it are left out of what the terminal goes through.

use vstd::prelude::*;

verus! {

/// The most characters of a color behind its `#` that are handed on. Cut in three, its longest part is
/// eight digits, which a word of every machine can be shifted by; a proper color has at most twelve in all.
pub const MAX_COLOR: usize = 22;

/// The number of an operating system command, as far as it was read.
#[derive(Debug, Clone, Copy, PartialEq, Eq, Structural)]
pub enum Number {
    Nothing,
    One,
    /// One of the numbers 4, 10, 11 and 12, whose commands set colors.
    SetsColors,
}

/// Where the bytes that a terminal was given have led, as far as colors go.
#[derive(Debug, Clone, Copy, PartialEq, Eq, Structural)]
pub enum Scan {
    /// In no operating system command.
    Plain,
    /// Behind an escape character.
    Escape,
    /// In the number of a command.
    Number(Number),
    /// At the start of a value of a command that sets colors.
    Value,
    /// In a color, with this many characters behind its `#`.
    Color(usize),
    /// In another value of a command that sets colors.
    OtherValue,
    /// In a command that sets no colors.
    Command,
    /// Some color was too long.
    TooLong,
}

/// A control character that a command does not end with and that is no part of it.
pub open spec fn skipped(byte: u8) -> bool {
    byte <= 0x06 || 0x08 <= byte <= 0x17 || byte == 0x19 || 0x1c <= byte <= 0x1f
}

/// A character that ends a command, besides the escape character.
pub open spec fn ends_command(byte: u8) -> bool {
    byte == 0x07 || byte == 0x18 || byte == 0x1a
}

/// A character behind an escape character that leaves open what the escape stands for.
pub open spec fn leaves_open(byte: u8) -> bool {
    skipped(byte) || byte == 0x07 || byte >= 0x7f
}

/// Where one more byte leads.
pub open spec fn stepped(scan: Scan, byte: u8) -> Scan {
    if scan is TooLong {
        Scan::TooLong
    } else if byte == 0x1b {
        Scan::Escape
    } else if scan is Plain {
        Scan::Plain
    } else if scan is Escape {
        if byte == 0x5d {
            Scan::Number(Number::Nothing)
        } else if leaves_open(byte) {
            Scan::Escape
        } else {
            Scan::Plain
        }
    } else if ends_command(byte) {
        Scan::Plain
    } else if skipped(byte) {
        scan
    } else if byte == 0x3b {
        match scan {
            Scan::Command => Scan::Command,
            Scan::Number(n) => if n is SetsColors {
                Scan::Value
            } else {
                Scan::Command
            },
            _ => Scan::Value,
        }
    } else {
        match scan {
            Scan::Number(Number::Nothing) => if byte == 0x34 {
                Scan::Number(Number::SetsColors)
            } else if byte == 0x31 {
                Scan::Number(Number::One)
            } else {
                Scan::Command
            },
            Scan::Number(Number::One) => if 0x30 <= byte <= 0x32 {
                Scan::Number(Number::SetsColors)
            } else {
                Scan::Command
            },
            Scan::Value => if byte == 0x23 {
                Scan::Color(0)
            } else {
                Scan::OtherValue
            },
            Scan::Color(n) => if n < MAX_COLOR {
                Scan::Color((n + 1) as usize)
            } else {
                Scan::TooLong
            },
            Scan::OtherValue => Scan::OtherValue,
            _ => Scan::Command,
        }
    }
}

/// Where bytes lead.
pub open spec fn scanned(scan: Scan, bytes: Seq<u8>) -> Scan
    decreases bytes.len(),
{
    if bytes.len() == 0 {
        scan
    } else {
        stepped(scanned(scan, bytes.drop_last()), bytes.last())
    }
}

/// What is handed on of bytes: all but those that would make a color too long.
pub open spec fn handed(scan: Scan, bytes: Seq<u8>) -> Seq<u8>
    decreases bytes.len(),
{
    if bytes.len() == 0 {
        Seq::empty()
    } else {
        let front = handed(scan, bytes.drop_last());
        if stepped(scanned(scan, front), bytes.last()) is TooLong {
            front
        } else {
            front.push(bytes.last())
        }
    }
}

impl Scan {
    /// Takes one more byte.
    pub fn step(self, byte: u8) -> (next: Scan)
        ensures
            next == stepped(self, byte),
    {
        if byte == 0x1b {
            return match self {
                Scan::TooLong => Scan::TooLong,
                _ => Scan::Escape,
            };
        }
        let skip = byte <= 0x06 || (0x08 <= byte && byte <= 0x17) || byte == 0x19 || (0x1c <= byte
            && byte <= 0x1f);
        match self {
            Scan::TooLong => Scan::TooLong,
            Scan::Plain => Scan::Plain,
            Scan::Escape => {
                if byte == 0x5d {
                    Scan::Number(Number::Nothing)
                } else if skip || byte == 0x07 || byte >= 0x7f {
                    Scan::Escape
                } else {
                    Scan::Plain
                }
            },
            _ => {
                if byte == 0x07 || byte == 0x18 || byte == 0x1a {
                    Scan::Plain
                } else if skip {
                    self
                } else if byte == 0x3b {
                    self.next_value()
                } else {
                    self.longer(byte)
                }
            },
        }
    }

    /// Takes a semicolon in a command.
    fn next_value(self) -> (next: Scan)
        requires
            !(self is TooLong || self is Plain || self is Escape),
        ensures
            next == stepped(self, 0x3b),
    {
        match self {
            Scan::Command => Scan::Command,
            Scan::Number(Number::SetsColors) => Scan::Value,
            Scan::Number(_) => Scan::Command,
            _ => Scan::Value,
        }
    }

    /// Takes a character of a command.
    fn longer(self, byte: u8) -> (next: Scan)
        requires
            !(self is TooLong || self is Plain || self is Escape),
            byte != 0x1b && byte != 0x3b && !ends_command(byte) && !skipped(byte),
        ensures
            next == stepped(self, byte),
    {
        match self {
            Scan::Number(Number::Nothing) => {
                if byte == 0x34 {
                    Scan::Number(Number::SetsColors)
                } else if byte == 0x31 {
                    Scan::Number(Number::One)
                } else {
                    Scan::Command
                }
            },
            Scan::Number(Number::One) => {
                if 0x30 <= byte && byte <= 0x32 {
                    Scan::Number(Number::SetsColors)
                } else {
                    Scan::Command
                }
            },
            Scan::Value => {
                if byte == 0x23 {
                    Scan::Color(0)
                } else {
                    Scan::OtherValue
                }
            },
            Scan::Color(n) => {
                if n < MAX_COLOR {
                    Scan::Color(n + 1)
                } else {
                    Scan::TooLong
                }
            },
            Scan::OtherValue => Scan::OtherValue,
            _ => Scan::Command,
        }
    }

    /// Takes bytes and returns those to hand on.
    pub fn hand_on(&mut self, bytes: &[u8]) -> (out: Vec<u8>)
        requires
            !(*old(self) is TooLong),
        ensures
            out@ == handed(*old(self), bytes@),
            *final(self) == scanned(*old(self), out@),
            !(*final(self) is TooLong),
    {
        let ghost start = *self;
        let mut out: Vec<u8> = Vec::new();
        let mut i: usize = 0;
        proof {
            assert(bytes@.take(0) =~= Seq::<u8>::empty());
        }
        while i < bytes.len()
            invariant
                i <= bytes.len(),
                out@ == handed(start, bytes@.take(i as int)),
                *self == scanned(start, out@),
                !(*self is TooLong),
            decreases bytes.len() - i,
        {
            let byte = bytes[i];
            proof {
                assert(bytes@.take(i + 1).drop_last() =~= bytes@.take(i as int));
                assert(out@.push(byte).drop_last() =~= out@);
            }
            let next = self.step(byte);
            match next {
                Scan::TooLong => {},
                _ => {
                    out.push(byte);
                    *self = next;
                },
            }
            i = i + 1;
        }
        proof {
            assert(bytes@.take(i as int) =~= bytes@);
        }
        out
    }
}

/// What is handed on never makes a color too long.
pub proof fn handed_colors_fit(scan: Scan, bytes: Seq<u8>)
    requires
        !(scan is TooLong),
    ensures
        !(scanned(scan, handed(scan, bytes)) is TooLong),
    decreases bytes.len(),
{
    if bytes.len() > 0 {
        let front = handed(scan, bytes.drop_last());
        handed_colors_fit(scan, bytes.drop_last());
        assert(front.push(bytes.last()).drop_last() =~= front);
    }
}

/// Bytes in which no color is too long are handed on as they are.
pub proof fn fitting_bytes_pass(scan: Scan, bytes: Seq<u8>)
    requires
        !(scanned(scan, bytes) is TooLong),
    ensures
        handed(scan, bytes) == bytes,
    decreases bytes.len(),
{
    if bytes.len() > 0 {
        fitting_bytes_pass(scan, bytes.drop_last());
        assert(bytes.drop_last().push(bytes.last()) =~= bytes);
    } else {
        assert(handed(scan, bytes) =~= bytes);
    }
}

/// Without an escape character plain text stays plain, and a command that sets no colors stays one until it
/// ends.
proof fn no_way_to_a_color(scan: Scan, bytes: Seq<u8>)
    requires
        scan is Plain || scan is Command,
        !bytes.contains(0x1b),
    ensures
        scanned(scan, bytes) is Plain || (scan is Command && scanned(scan, bytes) is Command),
    decreases bytes.len(),
{
    if bytes.len() > 0 {
        assert forall|i: int| 0 <= i < bytes.drop_last().len() implies bytes.drop_last()[i] != 0x1b by {
            assert(bytes[i] == bytes.drop_last()[i]);
            assert(bytes.contains(bytes[i]));
        }
        no_way_to_a_color(scan, bytes.drop_last());
        assert(bytes.contains(bytes.last()));
    }
}

/// Bytes lead where their second part leads from where their first part led.
pub proof fn scanned_in_parts(scan: Scan, a: Seq<u8>, b: Seq<u8>)
    ensures
        scanned(scan, a + b) == scanned(scanned(scan, a), b),
    decreases b.len(),
{
    if b.len() == 0 {
        assert(a + b =~= a);
    } else {
        assert((a + b).drop_last() =~= a + b.drop_last());
        scanned_in_parts(scan, a, b.drop_last());
    }
}

/// Plain text is handed on as it is.
pub proof fn plain_text_passes(bytes: Seq<u8>)
    requires
        !bytes.contains(0x1b),
    ensures
        handed(Scan::Plain, bytes) == bytes,
        scanned(Scan::Plain, bytes) is Plain,
{
    no_way_to_a_color(Scan::Plain, bytes);
    fitting_bytes_pass(Scan::Plain, bytes);
}

/// A command that sets the title is handed on as it is, whatever the title.
pub proof fn titles_pass(number: u8, title: Seq<u8>)
    requires
        number == 0x30 || number == 0x32,
        !title.contains(0x1b),
    ensures
        ({
            let command = seq![0x1bu8, 0x5d, number, 0x3b] + title + seq![0x07u8];
            handed(Scan::Plain, command) == command && scanned(Scan::Plain, command) is Plain
        }),
{
    let head = seq![0x1bu8, 0x5d, number, 0x3b];
    let command = head + title + seq![0x07u8];
    assert(scanned(Scan::Plain, head) is Command) by {
        reveal_with_fuel(scanned, 5);
        assert(head.drop_last() =~= seq![0x1bu8, 0x5d, number]);
        assert(seq![0x1bu8, 0x5d, number].drop_last() =~= seq![0x1bu8, 0x5d]);
        assert(seq![0x1bu8, 0x5d].drop_last() =~= seq![0x1bu8]);
        assert(seq![0x1bu8].drop_last() =~= Seq::<u8>::empty());
    }
    scanned_in_parts(Scan::Plain, head, title);
    no_way_to_a_color(Scan::Command, title);
    assert(command.drop_last() =~= head + title);
    fitting_bytes_pass(Scan::Plain, command);
}

} // verus!
