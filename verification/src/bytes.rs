//! Bit-exact comparison and copying of fixed-width byte strings.

use vstd::prelude::*;

verus! {

/// The array that holds exactly the bytes of `s`, for `s` of thirty-two bytes.
pub open spec fn array_of(s: Seq<u8>) -> [u8; 32] {
    choose|a: [u8; 32]| a@ == s
}

/// An array is the only one with its bytes.
pub proof fn lemma_array_of(a: [u8; 32])
    ensures
        array_of(a@) == a,
{
    let b = array_of(a@);
    assert(b@ == a@);
    assert(b =~= a);
}

/// The array `a` with its first `n` bytes replaced by those of `s`.
spec fn filled(a: [u8; 32], s: Seq<u8>, n: nat) -> [u8; 32]
    decreases n,
{
    if n == 0 {
        a
    } else {
        vstd::array::spec_array_update(filled(a, s, (n - 1) as nat), n - 1, s[n - 1])
    }
}

proof fn lemma_filled(a: [u8; 32], s: Seq<u8>, n: nat)
    requires
        s.len() == 32,
        n <= 32,
    ensures
        forall|k: int| 0 <= k < n ==> filled(a, s, n)@[k] == s[k],
    decreases n,
{
    if n > 0 {
        lemma_filled(a, s, (n - 1) as nat);
        let before = filled(a, s, (n - 1) as nat);
        vstd::array::axiom_spec_array_update(before, n - 1, s[n - 1]);
    }
}

/// Every string of thirty-two bytes is the content of exactly one array.
pub proof fn lemma_array_of_bytes(s: Seq<u8>)
    requires
        s.len() == 32,
    ensures
        array_of(s)@ == s,
{
    let a = filled(arbitrary(), s, 32);
    lemma_filled(arbitrary(), s, 32);
    assert(a@ =~= s);
}

/// True exactly when the two byte strings hold the same bytes in every position.
pub fn same_bytes(a: &[u8; 32], b: &[u8; 32]) -> (r: bool)
    ensures
        r == (a@ == b@),
        r == (*a == *b),
{
    let mut i: usize = 0;
    while i < 32
        invariant
            i <= 32,
            forall|k: int| 0 <= k < i ==> a[k] == b[k],
        decreases 32 - i,
    {
        if a[i] != b[i] {
            assert(a@[i as int] != b@[i as int]);
            return false;
        }
        i = i + 1;
    }
    assert(a@ =~= b@);
    assert(*a =~= *b);
    true
}

/// Copies a slice of exactly thirty-two bytes into an array; there is no
/// array for a slice of any other length.
pub fn to_array(s: &[u8]) -> (r: Option<[u8; 32]>)
    ensures
        s@.len() == 32 ==> r == Some(array_of(s@)),
        s@.len() != 32 ==> r is None,
        r matches Some(a) ==> a@ == s@,
{
    if s.len() != 32 {
        return None;
    }
    let mut r: [u8; 32] = [0u8; 32];
    let mut i: usize = 0;
    while i < 32
        invariant
            i <= 32,
            s@.len() == 32,
            forall|k: int| 0 <= k < i ==> r[k] == s[k],
        decreases 32 - i,
    {
        r[i] = s[i];
        i = i + 1;
    }
    assert(r@ =~= s@);
    proof {
        lemma_array_of(r);
    }
    Some(r)
}

} // verus!
