//! Numbers in the bytes of a file, with the highest byte first.
use vstd::prelude::*;

verus! {

/// The number that is written in the two bytes from `at`.
pub open spec fn word(data: Seq<u8>, at: int) -> int {
    data[at] * 256 + data[at + 1]
}

/// The number that is written in the four bytes from `at`.
pub open spec fn long(data: Seq<u8>, at: int) -> int {
    word(data, at) * 65536 + word(data, at + 2)
}

/// Reads the number in the two bytes from `at`.
pub(crate) fn read_word(data: &[u8], at: usize) -> (r: u16)
    requires
        at + 1 < data@.len(),
    ensures
        r == word(data@, at as int),
{
    data[at] as u16 * 256 + data[at + 1] as u16
}

/// Reads the number in the four bytes from `at`.
pub(crate) fn read_long(data: &[u8], at: usize) -> (r: u32)
    requires
        at + 3 < data@.len(),
    ensures
        r == long(data@, at as int),
{
    assert(data@.len() == data.len());
    read_word(data, at) as u32 * 65536 + read_word(data, at + 2) as u32
}

/// A number is the sum of its bytes, each 256 times what it would be one place further back.
pub proof fn numbers_are_positional(data: Seq<u8>, at: int)
    ensures
        word(data, at) == 0x100 * data[at] + data[at + 1],
        long(data, at) == 0x1000000 * data[at] + 0x10000 * data[at + 1] + 0x100 * data[at + 2]
            + data[at + 3],
{
}

} // verus!
