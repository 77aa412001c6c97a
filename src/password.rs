//! Legacy password obfuscation: every byte is inverted.
use vstd::prelude::*;

verus! {

/// The obfuscated form of a byte sequence: each byte bitwise-inverted.
pub open spec fn scrambled(data: Seq<u8>) -> Seq<u8> {
    Seq::new(data.len(), |i: int| !data[i])
}

/// Applies the legacy obfuscation (bitwise NOT of every byte). Scrambling and
/// unscrambling are the same operation.
pub fn xor_password(data: &[u8]) -> (r: Vec<u8>)
    ensures
        r@ == scrambled(data@),
{
    let mut out: Vec<u8> = Vec::with_capacity(data.len());
    let mut i: usize = 0;
    while i < data.len()
        invariant
            i <= data@.len(),
            out@ == scrambled(data@.subrange(0, i as int)),
        decreases data@.len() - i,
    {
        out.push(!data[i]);
        i += 1;
        proof {
            assert(out@ =~= scrambled(data@.subrange(0, i as int)));
        }
    }
    proof {
        assert(data@.subrange(0, data@.len() as int) =~= data@);
    }
    out
}

/// Same as [`xor_password`].
pub fn scramble_password(data: &[u8]) -> (r: Vec<u8>)
    ensures
        r@ == scrambled(data@),
{
    xor_password(data)
}

/// Same as [`xor_password`].
pub fn unscramble_password(data: &[u8]) -> (r: Vec<u8>)
    ensures
        r@ == scrambled(data@),
{
    xor_password(data)
}

/// Checks a plaintext password against its stored scrambled form.
pub fn verify_password(stored_scrambled: &[u8], provided: &[u8]) -> (r: bool)
    ensures
        r == (stored_scrambled@ == scrambled(provided@)),
{
    let s = xor_password(provided);
    bytes_equal(stored_scrambled, s.as_slice())
}

/// Byte-wise equality of two slices.
pub fn bytes_equal(a: &[u8], b: &[u8]) -> (r: bool)
    ensures
        r == (a@ == b@),
{
    if a.len() != b.len() {
        return false;
    }
    let mut i: usize = 0;
    while i < a.len()
        invariant
            a@.len() == b@.len(),
            i <= a@.len(),
            forall|j: int| 0 <= j < i ==> a@[j] == b@[j],
        decreases a@.len() - i,
    {
        if a[i] != b[i] {
            return false;
        }
        i += 1;
    }
    proof {
        assert(a@ =~= b@);
    }
    true
}

/// Scrambling twice gives back the original bytes.
pub proof fn lemma_scramble_involutive(x: Seq<u8>)
    ensures
        scrambled(scrambled(x)) == x,
{
    assert forall|i: int| 0 <= i < x.len() implies scrambled(scrambled(x))[i] == x[i] by {
        let b = x[i];
        assert(!(!b) == b) by (bit_vector);
    }
    assert(scrambled(scrambled(x)) =~= x);
}

} // verus!
