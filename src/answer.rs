use vstd::prelude::*;

verus! {

/// Whether one byte read from the operator accepts an overwrite: only `y`
/// (0x79) and `Y` (0x59) do; any other byte, or no byte at all, declines.
pub open spec fn affirmative(b: Option<u8>) -> bool {
    b == Some(0x79u8) || b == Some(0x59u8)
}

/// Reads the operator's answer to an overwrite question.
pub fn is_affirmative(b: Option<u8>) -> (r: bool)
    ensures
        r == affirmative(b),
{
    match b {
        Some(c) => c == 0x79u8 || c == 0x59u8,
        None => false,
    }
}

} // verus!
