//! Pixels, and how the bytes of a scanline become a row of them.

use crate::error::Error;
use vstd::prelude::*;
use vstd::slice::slice_subrange;

verus! {

/// One pixel: three channel samples in the order in which the file stores
/// them. No alpha sample is kept.
#[derive(Debug, Clone, Copy, PartialEq, Eq, Structural)]
pub struct BGRA {
    pub blue: u8,
    pub green: u8,
    pub red: u8,
}

/// The `k`-th sample of the group of `group` bytes that starts at `at`. A
/// group too short to hold the sample gives 0.
pub open spec fn channel(s: Seq<u8>, at: int, group: int, k: int) -> u8 {
    if k < group {
        s[at + k]
    } else {
        0
    }
}

/// The pixel that the group of `group` bytes starting at `at` spells: its
/// first three bytes are blue, green and red; bytes after the third are
/// dropped.
pub open spec fn pixel_at(s: Seq<u8>, at: int, group: int) -> BGRA {
    BGRA {
        blue: channel(s, at, group, 0),
        green: channel(s, at, group, 1),
        red: channel(s, at, group, 2),
    }
}

/// The row of `width` pixels that the bytes from `at` on spell, each pixel a
/// group of `group` bytes. Bytes after the last whole group belong to no
/// pixel.
pub open spec fn scanline_pixels(s: Seq<u8>, at: int, width: int, group: int) -> Seq<BGRA> {
    Seq::new(width as nat, |c: int| pixel_at(s, at + c * group, group))
}

impl BGRA {
    /// The pixel that a buffer of exactly four bytes (blue, green, red,
    /// alpha) spells. A buffer of another length is refused, with its length.
    pub fn from_buffer(buf: &[u8]) -> (r: Result<BGRA, Error>)
        ensures
            buf@.len() == 4 ==> r == Ok::<BGRA, Error>(pixel_at(buf@, 0, 4)),
            buf@.len() != 4 ==> r == Err::<BGRA, Error>(Error::InvalidRange(buf.len())),
    {
        let n: usize = buf.len();
        if n == 4 {
            Ok(BGRA { blue: buf[0], green: buf[1], red: buf[2] })
        } else {
            Err(Error::InvalidRange(n))
        }
    }

    /// The pixel that one group of bytes spells, whatever its length.
    pub fn from_group(group: &[u8]) -> (p: BGRA)
        ensures
            p == pixel_at(group@, 0, group@.len() as int),
    {
        let n: usize = group.len();
        let blue: u8 = if n > 0 {
            group[0]
        } else {
            0
        };
        let green: u8 = if n > 1 {
            group[1]
        } else {
            0
        };
        let red: u8 = if n > 2 {
            group[2]
        } else {
            0
        };
        BGRA { blue, green, red }
    }
}

/// Splits the front of a scanline into `width` groups of `group` bytes and
/// turns each into a pixel. What follows the last group is padding and is
/// left alone.
pub fn decode_scanline(line: &[u8], width: usize, group: usize) -> (row: Vec<BGRA>)
    requires
        width * group <= line@.len(),
    ensures
        row@ == scanline_pixels(line@, 0, width as int, group as int),
{
    let limit: usize = line.len();
    let mut row: Vec<BGRA> = Vec::new();
    let mut c: usize = 0;
    let mut at: usize = 0;
    while c < width
        invariant
            c <= width,
            at == c * group,
            width * group <= limit,
            limit == line@.len(),
            row@ == scanline_pixels(line@, 0, c as int, group as int),
        decreases width - c,
    {
        assert((c + 1) * group == c * group + group && (c + 1) * group <= width * group)
            by (nonlinear_arith)
            requires
                c < width,
        ;
        let end: usize = at + group;
        let bytes = slice_subrange(line, at, end);
        row.push(BGRA::from_group(bytes));
        assert(row@ =~= scanline_pixels(line@, 0, c + 1, group as int));
        c = c + 1;
        at = end;
    }
    row
}

} // verus!
