use vstd::prelude::*;

use crate::kind::IoErrorKind;

verus! {

/// One planned outcome of a primitive attempt on a scripted resource.
///
/// A scripted resource consults its script once per primitive attempt:
/// `Fail(k)` makes the attempt fail with kind `k` (with no other effect on
/// the resource), and `Run` lets it go through. Once the script is
/// exhausted, every attempt goes through.
#[derive(Clone, Copy, Debug, PartialEq, Eq, Structural)]
pub enum Op {
    /// The attempt fails with this kind.
    Fail(IoErrorKind),
    /// The attempt runs normally.
    Run,
}

/// How many consecutive `Fail(Interrupted)` entries stand in `ops` from
/// position `i`: the number of attempts a scripted resource will answer
/// with a transient interruption before the first terminal attempt.
pub open spec fn interrupts_from(ops: Seq<Op>, i: int) -> nat
    decreases ops.len() - i,
{
    if 0 <= i < ops.len() && ops[i] == Op::Fail(IoErrorKind::Interrupted) {
        (1 + interrupts_from(ops, i + 1)) as nat
    } else {
        0
    }
}

/// The script entry a scripted resource will consult next, if any.
pub open spec fn next_of(ops: Seq<Op>, i: int) -> Option<Op> {
    if 0 <= i < ops.len() {
        Some(ops[i])
    } else {
        None
    }
}

/// True when every byte is an ASCII code point.
pub open spec fn all_ascii(bytes: Seq<u8>) -> bool {
    forall|i: int| 0 <= i < bytes.len() ==> bytes[i] < 128
}

/// The text that a sequence of ASCII bytes stands for, byte for byte.
pub open spec fn ascii_chars(bytes: Seq<u8>) -> Seq<char> {
    bytes.map_values(|b: u8| b as char)
}

/// Whether every byte of `bytes` is ASCII.
pub fn check_ascii(bytes: &Vec<u8>, from: usize) -> (r: bool)
    requires
        from <= bytes@.len(),
    ensures
        r == all_ascii(bytes@.skip(from as int)),
{
    let mut i: usize = from;
    while i < bytes.len()
        invariant
            from <= i <= bytes@.len(),
            forall|j: int| from <= j < i ==> bytes@[j] < 128,
        decreases bytes@.len() - i,
    {
        if bytes[i] >= 128 {
            assert(bytes@.skip(from as int)[i - from] >= 128);
            return false;
        }
        i = i + 1;
    }
    assert forall|j: int| 0 <= j < bytes@.skip(from as int).len()
        implies bytes@.skip(from as int)[j] < 128 by {
        assert(bytes@.skip(from as int)[j] == bytes@[j + from]);
    }
    true
}

/// Relies on `str::from_utf8`: ASCII bytes decode to the characters with
/// the same code points, one character per byte.
#[verifier::external_body]
pub(crate) fn ascii_string(bytes: &Vec<u8>) -> (r: String)
    requires
        all_ascii(bytes@),
    ensures
        r@ == ascii_chars(bytes@),
{
    String::from(std::str::from_utf8(bytes).unwrap())
}

} // verus!
