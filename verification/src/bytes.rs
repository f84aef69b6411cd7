use vstd::prelude::*;

verus! {

/// The UTF-8 bytes of a string.
pub open spec fn utf8(s: Seq<char>) -> Seq<u8> {
    vstd::utf8::encode_utf8(s)
}

/// `n` zero bytes: the content of a freshly created buffer.
pub open spec fn zeros(n: nat) -> Seq<u8> {
    Seq::new(n, |i: int| 0u8)
}

/// `dst` with its first `src.len()` bytes replaced by `src`.
pub open spec fn with_prefix(dst: Seq<u8>, src: Seq<u8>) -> Seq<u8> {
    src + dst.skip(src.len() as int)
}

/// Copy `src` over the start of the fixed-size buffer `dst`, leaving the
/// rest of `dst` as it was.
pub fn copy_prefix<const N: usize>(dst: &mut [u8; N], src: &[u8])
    requires
        src@.len() <= N,
    ensures
        final(dst)@ == with_prefix(old(dst)@, src@),
{
    let ghost original = dst@;
    let mut i: usize = 0;
    while i < src.len()
        invariant
            src@.len() <= N,
            i <= src@.len(),
            dst@.len() == N,
            original.len() == N,
            forall|j: int| 0 <= j < i ==> dst@[j] == src@[j],
            forall|j: int| i <= j < N ==> dst@[j] == original[j],
        decreases src@.len() - i,
    {
        dst[i] = src[i];
        i = i + 1;
    }
    assert(dst@ =~= with_prefix(original, src@));
}

} // verus!
