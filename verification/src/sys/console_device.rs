//! The console sink: interprets the small control-byte protocol of the
//! toolchain's output channel.
//!
//! Bytes arrive in order from a `TxDevice`.  0x04 (end of transmission)
//! terminates; 0x17 flushes (the host prints the buffer, which empties);
//! 0x07 rings the bell (host-side only); 0x08 erases the byte before the
//! cursor; 0x0d repositions the cursor to the start of the current line
//! (the byte after the most recent line feed); anything else, line feeds
//! included, is written at the cursor.

use vstd::prelude::*;

verus! {

pub const EOT: u8 = 0x04;

pub const ETB: u8 = 0x17;

pub const BEL: u8 = 0x07;

pub const BS: u8 = 0x08;

pub const CR: u8 = 0x0d;

pub const LF: u8 = 0x0a;

pub struct ConsoleDevice {
    pub echo: bool,
}

/// Start of the line the cursor sits on: the position after the last line
/// feed strictly before the cursor, or zero if there is none.
pub open spec fn spec_line_start(buf: Seq<u8>, idx: int) -> int
    decreases idx,
{
    if idx <= 0 {
        0
    } else if 0 < idx <= buf.len() && buf[idx - 1] == LF {
        idx
    } else {
        spec_line_start(buf, idx - 1)
    }
}

/// One byte applied to the buffer and cursor.
pub open spec fn spec_console_step(buf: Seq<u8>, idx: int, b: u8) -> (Seq<u8>, int) {
    if b == ETB {
        (Seq::<u8>::empty(), 0)
    } else if b == BEL {
        (buf, idx)
    } else if b == BS {
        if idx > 0 {
            (buf.remove(idx - 1), idx - 1)
        } else {
            (buf, idx)
        }
    } else if b == CR {
        (buf, spec_line_start(buf, idx))
    } else if idx == buf.len() {
        (buf.push(b), idx + 1)
    } else {
        (buf.update(idx, b), idx + 1)
    }
}

/// The buffer after a whole byte stream, stopping at the first end of
/// transmission.
pub open spec fn spec_console_run(buf: Seq<u8>, idx: int, input: Seq<u8>) -> Seq<u8>
    decreases input.len(),
{
    if input.len() == 0 || input[0] == EOT {
        buf
    } else {
        let (buf2, idx2) = spec_console_step(buf, idx, input[0]);
        spec_console_run(buf2, idx2, input.drop_first())
    }
}

impl ConsoleDevice {
    pub fn new(echo: bool) -> (d: ConsoleDevice)
        ensures
            d.echo == echo,
    {
        ConsoleDevice { echo }
    }

    /// Interpret a byte stream and return the buffer standing when the end
    /// of transmission arrived (or when the stream ran out).
    pub fn run(&self, input: &Vec<u8>) -> (buf: Vec<u8>)
        ensures
            buf@ == spec_console_run(Seq::<u8>::empty(), 0, input@),
    {
        let mut buf: Vec<u8> = Vec::new();
        let mut idx: usize = 0;
        let mut i: usize = 0;
        let ghost goal = spec_console_run(Seq::<u8>::empty(), 0, input@);
        proof {
            assert(input@.subrange(0, input@.len() as int) =~= input@);
        }
        while i < input.len()
            invariant
                goal == spec_console_run(Seq::<u8>::empty(), 0, input@),
                i <= input.len(),
                idx <= buf.len(),
                spec_console_run(buf@, idx as int, input@.subrange(i as int, input@.len() as int))
                    == goal,
            decreases input.len() - i,
        {
            let b = input[i];
            let ghost rest = input@.subrange(i as int, input@.len() as int);
            proof {
                assert(rest[0] == input@[i as int]);
                assert(rest.drop_first() =~= input@.subrange(i as int + 1, input@.len() as int));
            }
            if b == EOT {
                proof {
                    assert(spec_console_run(buf@, idx as int, rest) == buf@);
                }
                return buf;
            }
            let ghost prev_buf = buf@;
            let ghost prev_idx = idx as int;
            if b == ETB {
                buf.clear();
                idx = 0;
            } else if b == BEL {
            } else if b == BS {
                if idx > 0 {
                    idx = idx - 1;
                    buf.remove(idx);
                }
            } else if b == CR {
                idx = Self::line_start(&buf, idx);
            } else if idx == buf.len() {
                buf.push(b);
                idx = buf.len();
            } else {
                buf.set(idx, b);
                idx = idx + 1;
            }
            proof {
                assert(buf@ =~= spec_console_step(prev_buf, prev_idx, b).0);
                assert(idx as int == spec_console_step(prev_buf, prev_idx, b).1);
            }
            i = i + 1;
        }
        proof {
            assert(input@.subrange(input@.len() as int, input@.len() as int)
                =~= Seq::<u8>::empty());
        }
        buf
    }

    /// Scan back from the cursor for the most recent line feed.
    fn line_start(buf: &Vec<u8>, idx: usize) -> (r: usize)
        requires
            idx <= buf.len(),
        ensures
            r == spec_line_start(buf@, idx as int),
            r <= idx,
    {
        let mut j = idx;
        while j > 0
            invariant
                j <= idx <= buf.len(),
                spec_line_start(buf@, idx as int) == spec_line_start(buf@, j as int),
            decreases j,
        {
            if buf[j - 1] == LF {
                return j;
            }
            j = j - 1;
        }
        0
    }
}

} // verus!
