//! Byte-string building blocks shared by the symbol and descriptor code.
use vstd::prelude::*;
use vstd::string::StringSliceAdditionalSpecFns;

verus! {

/// Appends the bytes of `s` to `out`.
pub fn push_bytes(out: &mut Vec<u8>, s: &[u8])
    ensures
        final(out)@ == old(out)@ + s@,
{
    let mut i: usize = 0;
    while i < s.len()
        invariant
            i <= s@.len(),
            out@ == old(out)@ + s@.take(i as int),
        decreases s@.len() - i,
    {
        out.push(s[i]);
        i = i + 1;
        assert(s@.take(i as int) == s@.take(i - 1 as int).push(s@[i - 1]));
    }
    assert(s@.take(s@.len() as int) == s@);
}

/// Appends the UTF-8 bytes of `s` to `out`.
pub fn push_str(out: &mut Vec<u8>, s: &str)
    ensures
        final(out)@ == old(out)@ + s.spec_bytes(),
{
    push_bytes(out, s.as_bytes());
}

/// `s` followed by a terminating zero byte.
pub open spec fn nul_terminated(s: Seq<u8>) -> Seq<u8> {
    s.push(0u8)
}

/// Copies `s` and appends a terminating zero byte.
pub fn to_c_string(s: &[u8]) -> (r: Vec<u8>)
    ensures
        r@ == nul_terminated(s@),
{
    let mut out: Vec<u8> = Vec::new();
    push_bytes(&mut out, s);
    out.push(0u8);
    assert(out@ == Seq::<u8>::empty() + s@ + seq![0u8]);
    out
}

} // verus!
