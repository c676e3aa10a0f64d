//! The byte source behind the random instruction: a fixed table of 256
//! bytes, walked by a cursor that wraps around.

use vstd::prelude::*;

verus! {

/// The table that the source walks. The first byte handed out is the entry
/// at position 1; the entry at position 0 comes last in each round.
pub const RND_TABLE: [u8; 256] = [
    0, 8, 109, 220, 222, 241, 149, 107, 75, 248, 254, 140, 16, 66, 74, 21,
    211, 47, 80, 242, 154, 27, 205, 128, 161, 89, 77, 36, 95, 110, 85, 48,
    212, 140, 211, 249, 22, 79, 200, 50, 28, 188, 52, 140, 202, 120, 68, 145,
    62, 70, 184, 190, 91, 197, 152, 224, 149, 104, 25, 178, 252, 182, 202, 182,
    141, 197, 4, 81, 181, 242, 145, 42, 39, 227, 156, 198, 225, 193, 219, 93,
    122, 175, 249, 0, 175, 143, 70, 239, 46, 246, 163, 53, 163, 109, 168, 135,
    2, 235, 25, 92, 20, 145, 138, 77, 69, 166, 78, 176, 173, 212, 166, 113,
    94, 161, 41, 50, 239, 49, 111, 164, 70, 60, 2, 37, 171, 75, 136, 156,
    11, 56, 42, 146, 138, 229, 73, 146, 77, 61, 98, 196, 135, 106, 63, 197,
    195, 86, 96, 203, 113, 101, 170, 247, 181, 113, 80, 250, 108, 7, 255, 237,
    129, 226, 79, 107, 112, 166, 103, 241, 24, 223, 239, 120, 198, 58, 60, 82,
    128, 3, 184, 66, 143, 224, 145, 224, 81, 206, 163, 45, 63, 90, 168, 114,
    59, 33, 159, 95, 28, 139, 123, 98, 125, 196, 15, 70, 194, 253, 54, 14,
    109, 226, 71, 17, 161, 93, 186, 87, 244, 138, 20, 52, 123, 251, 26, 36,
    17, 46, 52, 231, 232, 76, 31, 221, 84, 37, 216, 165, 212, 106, 197, 242,
    98, 43, 39, 175, 254, 145, 190, 84, 118, 222, 187, 136, 120, 163, 236, 249,
];

/// A deterministic source of bytes.
#[derive(Clone, Copy, Debug)]
pub struct DoomRNG {
    /// Position in the table of the byte handed out last.
    pub index: u8,
}

/// The byte that a source hands out at its `k`-th call (counted from 1)
/// after its cursor stood at `index`.
pub open spec fn byte_after(index: u8, k: int) -> u8 {
    RND_TABLE[cursor_after(index, k)]
}

/// The first `n` bytes that a source hands out after its cursor stood at
/// `index`.
pub open spec fn bytes_after(index: u8, n: nat) -> Seq<u8> {
    Seq::new(n, |k: int| byte_after(index, k + 1))
}

/// The place in the table of the byte that a source hands out at its `k`-th
/// call after its cursor stood at `index`.
pub open spec fn cursor_after(index: u8, k: int) -> int {
    (index as int + k) % 256
}

/// Moving a cursor on by `j` and then by `k` is moving it on by `j + k`, and
/// moving it on by 256 brings it back.
pub proof fn lemma_cursor_moves_add_up(index: u8, j: int, k: int)
    requires
        0 <= j,
        0 <= k,
    ensures
        cursor_after(cursor_after(index, j) as u8, k) == cursor_after(index, j + k),
        cursor_after(index, k + 256) == cursor_after(index, k),
{
}

/// The stream of a source depends on its cursor alone: what comes `j + k`
/// calls after a cursor is what comes `k` calls after the cursor that `j`
/// calls leave, and the stream repeats after 256 bytes. So two sources with
/// the same cursor, such as two new ones, hand out the same bytes for ever.
pub proof fn lemma_stream_is_determined(index: u8, j: int, k: int)
    requires
        0 <= j,
        0 <= k,
    ensures
        byte_after(cursor_after(index, j) as u8, k) == byte_after(index, j + k),
        byte_after(index, k + 256) == byte_after(index, k),
{
    lemma_cursor_moves_add_up(index, j, k);
}

impl DoomRNG {
    /// A source at the start of the table.
    pub fn new() -> (rng: DoomRNG)
        ensures
            rng.index == 0,
    {
        DoomRNG { index: 0 }
    }

    /// Moves the cursor one entry on, wrapping after the last entry, and
    /// returns the entry it then stands on.
    pub fn next_byte(&mut self) -> (byte: u8)
        ensures
            final(self).index as int == cursor_after(old(self).index, 1),
            byte == byte_after(old(self).index, 1),
    {
        self.index = if self.index == 255 { 0 } else { self.index + 1 };
        RND_TABLE[self.index as usize]
    }
}

impl Default for DoomRNG {
    /// A source at the start of the table.
    fn default() -> (rng: Self)
        ensures
            rng.index == 0,
    {
        DoomRNG::new()
    }
}

} // verus!
