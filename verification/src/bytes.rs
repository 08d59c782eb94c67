//! Little-endian byte encodings of integers.

use vstd::prelude::*;

use vstd::string::StringSliceAdditionalSpecFns;

verus! {

/// The `n` least significant bytes of `x`, least significant first.
pub open spec fn le_bytes(x: nat, n: nat) -> Seq<u8>
    decreases n,
{
    if n == 0 {
        Seq::empty()
    } else {
        seq![(x % 256) as u8] + le_bytes(x / 256, (n - 1) as nat)
    }
}

/// The natural number whose little-endian encoding is `s`.
pub open spec fn le_nat(s: Seq<u8>) -> nat
    decreases s.len(),
{
    if s.len() == 0 {
        0
    } else {
        s[0] as nat + 256 * le_nat(s.drop_first())
    }
}

/// Appends the `n` least significant bytes of `x` to `out`, least significant first.
pub fn push_le_bytes(out: &mut Vec<u8>, x: u64, n: usize)
    ensures
        final(out)@ == old(out)@ + le_bytes(x as nat, n as nat),
{
    let ghost start = out@;
    let mut rest: u64 = x;
    let mut i: usize = 0;
    while i < n
        invariant
            i <= n,
            out@ + le_bytes(rest as nat, (n - i) as nat) == start + le_bytes(x as nat, n as nat),
        decreases n - i,
    {
        let byte: u8 = (rest % 256) as u8;
        proof {
            assert(le_bytes(rest as nat, (n - i) as nat) == seq![byte] + le_bytes(
                (rest / 256) as nat,
                (n - i - 1) as nat,
            ));
            assert(out@.push(byte) + le_bytes((rest / 256) as nat, (n - i - 1) as nat) == out@ + (
            seq![byte] + le_bytes((rest / 256) as nat, (n - i - 1) as nat)));
        }
        out.push(byte);
        rest = rest / 256;
        i = i + 1;
    }
    assert(out@ + le_bytes(rest as nat, 0) == out@);
}

/// Appends all of `src` to `out`.
pub fn push_all(out: &mut Vec<u8>, src: &[u8])
    ensures
        final(out)@ == old(out)@ + src@,
{
    let ghost start = out@;
    let mut i: usize = 0;
    while i < src.len()
        invariant
            i <= src@.len(),
            out@ == start + src@.take(i as int),
        decreases src@.len() - i,
    {
        proof {
            assert(src@.take(i + 1) == src@.take(i as int).push(src@[i as int]));
        }
        out.push(src[i]);
        i = i + 1;
    }
    assert(src@.take(src@.len() as int) == src@);
}

} // verus!

verus! {

/// Whether two 32-byte arrays hold the same bytes.
pub fn bytes32_equal(a: &[u8; 32], b: &[u8; 32]) -> (equal: bool)
    ensures
        equal == (a@ == b@),
{
    let mut i: usize = 0;
    while i < 32
        invariant
            i <= 32,
            a@.len() == 32,
            b@.len() == 32,
            forall|j: int| 0 <= j < i ==> a@[j] == b@[j],
        decreases 32 - i,
    {
        if a[i] != b[i] {
            return false;
        }
        i = i + 1;
    }
    assert(a@ =~= b@);
    true
}

} // verus!

verus! {

/// The bytes of `src` as an array, when there are exactly 32 of them.
pub fn to_array32(src: &[u8]) -> (array: Option<[u8; 32]>)
    ensures
        match array {
            Some(a) => src@.len() == 32 && a@ == src@,
            None => src@.len() != 32,
        },
{
    if src.len() != 32 {
        return None;
    }
    let mut a = [0u8; 32];
    let mut i: usize = 0;
    while i < 32
        invariant
            i <= 32,
            src@.len() == 32,
            forall|j: int| 0 <= j < i ==> a@[j] == src@[j],
        decreases 32 - i,
    {
        a[i] = src[i];
        i = i + 1;
    }
    assert(a@ =~= src@);
    Some(a)
}

/// The bytes of `a` in a vector.
pub fn array32_to_vec(a: &[u8; 32]) -> (v: Vec<u8>)
    ensures
        v@ == a@,
{
    let mut v: Vec<u8> = Vec::new();
    push_all(&mut v, a);
    assert(v@ =~= a@);
    v
}

/// Whether two strings hold the same characters.
pub fn str_equal(a: &str, b: &str) -> (equal: bool)
    ensures
        equal == (a@ == b@),
{
    let x = a.as_bytes();
    let y = b.as_bytes();
    proof {
        vstd::utf8::encode_utf8_decode_utf8(a@);
        vstd::utf8::encode_utf8_decode_utf8(b@);
    }
    if x.len() != y.len() {
        return false;
    }
    let mut i: usize = 0;
    while i < x.len()
        invariant
            i <= x@.len(),
            x@.len() == y@.len(),
            x@ == a.spec_bytes(),
            y@ == b.spec_bytes(),
            forall|j: int| 0 <= j < i ==> x@[j] == y@[j],
        decreases x@.len() - i,
    {
        if x[i] != y[i] {
            assert(x@ != y@);
            return false;
        }
        i = i + 1;
    }
    assert(x@ =~= y@);
    true
}

} // verus!

verus! {

/// Encoding the number that a byte string encodes gives back the byte string.
pub proof fn lemma_le_bytes_of_le_nat(s: Seq<u8>)
    ensures
        le_bytes(le_nat(s), s.len()) == s,
    decreases s.len(),
{
    if s.len() > 0 {
        let rest = s.drop_first();
        lemma_le_bytes_of_le_nat(rest);
        let x = le_nat(s);
        assert(x == s[0] as nat + 256 * le_nat(rest));
        assert(x % 256 == s[0] as nat && x / 256 == le_nat(rest)) by (nonlinear_arith)
            requires
                x == s[0] as nat + 256 * le_nat(rest),
                s[0] < 256,
        ;
        assert(le_bytes(x, s.len()) =~= seq![s[0]] + rest);
        assert(seq![s[0]] + rest =~= s);
    }
}

/// The number that an encoding of `x` encodes is at most `x`: the encoding keeps the
/// low bytes only.
pub proof fn lemma_le_nat_of_le_bytes(x: nat, n: nat)
    ensures
        le_nat(le_bytes(x, n)) <= x,
    decreases n,
{
    if n > 0 {
        let b = le_bytes(x, n);
        lemma_le_nat_of_le_bytes(x / 256, (n - 1) as nat);
        assert(b.drop_first() =~= le_bytes(x / 256, (n - 1) as nat));
        assert(b[0] as nat == x % 256);
        assert(x % 256 + 256 * le_nat(le_bytes(x / 256, (n - 1) as nat)) <= x) by (nonlinear_arith)
            requires
                le_nat(le_bytes(x / 256, (n - 1) as nat)) <= x / 256,
        ;
    }
}

} // verus!

verus! {

/// 256 to the power `n`: the count of numbers that `n` bytes can encode.
pub open spec fn pow256(n: nat) -> nat
    decreases n,
{
    if n == 0 {
        1
    } else {
        256 * pow256((n - 1) as nat)
    }
}

/// Every number below `256^n` is encoded by its `n` little-endian bytes exactly: reading
/// them back gives the number, and there are `n` of them.
pub proof fn lemma_le_bytes_exact(x: nat, n: nat)
    requires
        x < pow256(n),
    ensures
        le_bytes(x, n).len() == n,
        le_nat(le_bytes(x, n)) == x,
    decreases n,
{
    if n > 0 {
        let b = le_bytes(x, n);
        assert(x / 256 < pow256((n - 1) as nat)) by (nonlinear_arith)
            requires
                x < 256 * pow256((n - 1) as nat),
        ;
        lemma_le_bytes_exact(x / 256, (n - 1) as nat);
        assert(b.drop_first() =~= le_bytes(x / 256, (n - 1) as nat));
        assert(b[0] as nat == x % 256);
        assert(x % 256 + 256 * (x / 256) == x) by (nonlinear_arith);
    }
}

/// Every `u32` is below `256^4`, and every `u64` below `256^8`.
pub proof fn lemma_pow256_bounds()
    ensures
        pow256(4) == 0x1_0000_0000,
        pow256(8) == 0x1_0000_0000_0000_0000,
{
    reveal_with_fuel(pow256, 9);
}

} // verus!
