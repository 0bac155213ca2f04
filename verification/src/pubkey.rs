//! Account addresses: 32 bytes held as four little-endian 64-bit words.

use vstd::bytes::*;
use vstd::prelude::*;

verus! {

/// A 32-byte account address. Word `w0` holds bytes 0..8 (little endian), and so on.
#[derive(Clone, Copy, Debug, PartialEq, Eq, Structural)]
pub struct Pubkey {
    pub w0: u64,
    pub w1: u64,
    pub w2: u64,
    pub w3: u64,
}

impl Pubkey {
    /// The 32 bytes of the address.
    pub open spec fn bytes(self) -> Seq<u8> {
        spec_u64_to_le_bytes(self.w0) + spec_u64_to_le_bytes(self.w1) + spec_u64_to_le_bytes(
            self.w2,
        ) + spec_u64_to_le_bytes(self.w3)
    }

    /// The address whose bytes are the 32 bytes of `s` starting at `p`.
    pub open spec fn spec_from_bytes_at(s: Seq<u8>, p: int) -> Pubkey {
        Pubkey {
            w0: spec_u64_from_le_bytes(s.subrange(p, p + 8)),
            w1: spec_u64_from_le_bytes(s.subrange(p + 8, p + 16)),
            w2: spec_u64_from_le_bytes(s.subrange(p + 16, p + 24)),
            w3: spec_u64_from_le_bytes(s.subrange(p + 24, p + 32)),
        }
    }

    /// The all-zero address.
    pub fn zero() -> (k: Pubkey)
        ensures
            k == (Pubkey { w0: 0, w1: 0, w2: 0, w3: 0 }),
    {
        Pubkey { w0: 0, w1: 0, w2: 0, w3: 0 }
    }

    /// Reads an address from the 32 bytes of `s` at `p`.
    pub fn from_bytes_at(s: &[u8], p: usize) -> (k: Pubkey)
        requires
            p + 32 <= s@.len(),
        ensures
            k == Pubkey::spec_from_bytes_at(s@, p as int),
    {
        let n = s.len();
        assert(p + 32 <= n);
        let w0 = u64_from_le_bytes(vstd::slice::slice_subrange(s, p, p + 8));
        let w1 = u64_from_le_bytes(vstd::slice::slice_subrange(s, p + 8, p + 16));
        let w2 = u64_from_le_bytes(vstd::slice::slice_subrange(s, p + 16, p + 24));
        let w3 = u64_from_le_bytes(vstd::slice::slice_subrange(s, p + 24, p + 32));
        Pubkey { w0, w1, w2, w3 }
    }

    /// Appends the 32 bytes of the address to `out`.
    pub fn write_to(&self, out: &mut Vec<u8>)
        ensures
            final(out)@ == old(out)@ + self.bytes(),
    {
        let mut b = u64_to_le_bytes(self.w0);
        out.append(&mut b);
        let mut b = u64_to_le_bytes(self.w1);
        out.append(&mut b);
        let mut b = u64_to_le_bytes(self.w2);
        out.append(&mut b);
        let mut b = u64_to_le_bytes(self.w3);
        out.append(&mut b);
        assert(final(out)@ =~= old(out)@ + self.bytes());
    }


    /// The 32 bytes of the address, as a vector.
    pub fn to_bytes(&self) -> (v: Vec<u8>)
        ensures
            v@ == self.bytes(),
    {
        let mut v: Vec<u8> = Vec::new();
        self.write_to(&mut v);
        assert(v@ =~= self.bytes());
        v
    }

    /// The 32 bytes of the address, as an array.
    pub fn to_array(&self) -> (a: [u8; 32])
        ensures
            a@ == self.bytes(),
    {
        let v = self.to_bytes();
        proof {
            lemma_bytes_len(*self);
        }
        let mut a = [0u8; 32];
        let mut i: usize = 0;
        while i < 32
            invariant
                0 <= i <= 32,
                v@.len() == 32,
                forall|j: int| 0 <= j < i ==> a@[j] == v@[j],
            decreases 32 - i,
        {
            a[i] = v[i];
            i = i + 1;
        }
        assert(a@ =~= v@);
        a
    }

    /// The address with the given 32 bytes.
    pub fn from_array(a: &[u8; 32]) -> (k: Pubkey)
        ensures
            k.bytes() == a@,
            k == Pubkey::spec_from_bytes_at(a@, 0),
    {
        let k = Pubkey::from_bytes_at(a.as_slice(), 0);
        proof {
            lemma_from_bytes_roundtrip(a@);
            assert(a@.take(32) =~= a@);
        }
        k
    }
}

/// Every address has 32 bytes.
pub proof fn lemma_bytes_len(k: Pubkey)
    ensures
        k.bytes().len() == 32,
{
    lemma_auto_spec_u64_to_from_le_bytes();
}

/// Reading an address back from its bytes gives the address.
pub proof fn lemma_bytes_roundtrip(k: Pubkey)
    ensures
        Pubkey::spec_from_bytes_at(k.bytes(), 0) == k,
{
    lemma_auto_spec_u64_to_from_le_bytes();
    let s = k.bytes();
    assert(s.subrange(0, 8) =~= spec_u64_to_le_bytes(k.w0));
    assert(s.subrange(8, 16) =~= spec_u64_to_le_bytes(k.w1));
    assert(s.subrange(16, 24) =~= spec_u64_to_le_bytes(k.w2));
    assert(s.subrange(24, 32) =~= spec_u64_to_le_bytes(k.w3));
}

/// The bytes of an address read from 32 bytes are those bytes.
pub proof fn lemma_from_bytes_roundtrip(s: Seq<u8>)
    requires
        s.len() >= 32,
    ensures
        Pubkey::spec_from_bytes_at(s, 0).bytes() == s.take(32),
{
    lemma_auto_spec_u64_to_from_le_bytes();
    let k = Pubkey::spec_from_bytes_at(s, 0);
    assert(s.subrange(0, 8).len() == 8);
    assert(s.take(32) =~= s.subrange(0, 8) + s.subrange(8, 16) + s.subrange(16, 24) + s.subrange(
        24,
        32,
    ));
}

/// Two addresses with the same bytes are the same address.
pub proof fn lemma_bytes_injective(a: Pubkey, b: Pubkey)
    requires
        a.bytes() == b.bytes(),
    ensures
        a == b,
{
    lemma_bytes_roundtrip(a);
    lemma_bytes_roundtrip(b);
}

} // verus!
