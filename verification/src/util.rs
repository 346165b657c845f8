//! Small helpers around the command line.

use vstd::prelude::*;

verus! {

/// Whether a word means "yes": `1`, `true`, `yes`, `y` or `on`.
pub open spec fn spec_parse_bool(s: Seq<char>) -> bool {
    s == "1"@ || s == "true"@ || s == "yes"@ || s == "y"@ || s == "on"@
}

/// Reads a flag from a word: `1`, `true`, `yes`, `y` and `on` are true, every
/// other word is false.
pub fn parse_bool(s: &str) -> (r: bool)
    ensures
        r == spec_parse_bool(s@),
{
    s.eq("1") || s.eq("true") || s.eq("yes") || s.eq("y") || s.eq("on")
}

/// Wipes a byte string that held a key: every byte becomes zero.
pub fn zero_bytes(bytes: &mut Vec<u8>)
    ensures
        final(bytes)@.len() == old(bytes)@.len(),
        forall|i: int| 0 <= i < final(bytes)@.len() ==> final(bytes)@[i] == 0,
{
    let n: usize = bytes.len();
    let mut i: usize = 0;
    while i < n
        invariant
            i <= n,
            n == bytes@.len(),
            n == old(bytes)@.len(),
            forall|j: int| 0 <= j < i ==> bytes@[j] == 0,
        decreases n - i,
    {
        bytes.set(i, 0);
        i += 1;
    }
}

/// Wipes a secret: every byte of the text is overwritten with zero in the
/// buffer that held it, and the text is left empty.
pub fn zero_string(s: &mut String)
    ensures
        final(s)@ == Seq::<char>::empty(),
{
    let n: usize = s.as_str().len();
    // Emptying the text keeps its buffer, so as many NULs as it had bytes land
    // on the bytes it had.
    s.clear();
    let mut i: usize = 0;
    while i < n
        invariant
            i <= n,
        decreases n - i,
    {
        s.push('\0');
        i += 1;
    }
    s.clear();
}

} // verus!
