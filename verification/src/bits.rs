//! Packing coil values into bytes and back, as the write-multiple-coils and
//! read-bits payloads require: bit `j` of byte `i` holds value `8*i + j`,
//! and padding bits beyond the declared quantity are zero.

use vstd::prelude::*;
use vstd::arithmetic::div_mod::{
    lemma_fundamental_div_mod, lemma_fundamental_div_mod_converse, lemma_mod_bound,
};

verus! {

/// Two to the power `j`, for bit positions 0 through 7.
pub open spec fn p2(j: int) -> int {
    if j == 0 {
        1
    } else if j == 1 {
        2
    } else if j == 2 {
        4
    } else if j == 3 {
        8
    } else if j == 4 {
        16
    } else if j == 5 {
        32
    } else if j == 6 {
        64
    } else {
        128
    }
}

/// The numeric contribution of position `k` of `v`: 1 when set, 0 when
/// clear or past the end.
pub open spec fn bitv(v: Seq<bool>, k: int) -> int {
    if 0 <= k < v.len() && v[k] {
        1
    } else {
        0
    }
}

/// The value contributed by the first `j` bit positions of the byte whose
/// lowest bit is position `base` of `v`.
pub open spec fn packed_sum(v: Seq<bool>, base: int, j: int) -> int
    decreases j,
{
    if j <= 0 {
        0
    } else {
        packed_sum(v, base, j - 1) + bitv(v, base + j - 1) * p2(j - 1)
    }
}

/// The packed byte whose lowest bit is position `base` of `v`.
pub open spec fn packed_byte(v: Seq<bool>, base: int) -> u8 {
    packed_sum(v, base, 8) as u8
}

/// `v` packed least-significant-bit first into `ceil(len / 8)` bytes.
pub open spec fn pack_bits(v: Seq<bool>) -> Seq<u8> {
    Seq::new(((v.len() + 7) / 8) as nat, |i: int| packed_byte(v, 8 * i))
}

/// Whether bit `j` of byte `b` is set.
pub open spec fn bit_of(b: u8, j: int) -> bool {
    ((b as int) / p2(j)) % 2 == 1
}

/// The first `n` bits carried by `bytes`, least-significant-bit first.
pub open spec fn unpack_bits(bytes: Seq<u8>, n: nat) -> Seq<bool> {
    Seq::new(n, |i: int| bit_of(bytes[i / 8], i % 8))
}

proof fn lemma_extract_bit(b: int, p: int, low: int, bit: int, high: int)
    requires
        p > 0,
        0 <= low < p,
        0 <= bit <= 1,
        0 <= high,
        b == low + p * (bit + 2 * high),
    ensures
        (b / p) % 2 == bit,
{
    assert(p * (bit + 2 * high) == (bit + 2 * high) * p) by (nonlinear_arith);
    lemma_fundamental_div_mod_converse(b, p, bit + 2 * high, low);
    lemma_fundamental_div_mod_converse(bit + 2 * high, 2, high, bit);
}

/// Bit `j` of the byte packed at `base` reads back position `base + j`.
proof fn lemma_bit_of_packed(v: Seq<bool>, base: int, j: int)
    requires
        0 <= j < 8,
    ensures
        bit_of(packed_byte(v, base), j) == (bitv(v, base + j) == 1),
{
    let b0 = bitv(v, base);
    let b1 = bitv(v, base + 1);
    let b2 = bitv(v, base + 2);
    let b3 = bitv(v, base + 3);
    let b4 = bitv(v, base + 4);
    let b5 = bitv(v, base + 5);
    let b6 = bitv(v, base + 6);
    let b7 = bitv(v, base + 7);
    let s = packed_sum(v, base, 8);
    assert(s == b0 + 2 * b1 + 4 * b2 + 8 * b3 + 16 * b4 + 32 * b5 + 64 * b6 + 128 * b7) by {
        reveal_with_fuel(packed_sum, 9);
    };
    assert(0 <= s <= 255);
    assert(packed_byte(v, base) as int == s);
    if j == 0 {
        lemma_extract_bit(s, 1, 0, b0, b1 + 2 * b2 + 4 * b3 + 8 * b4 + 16 * b5 + 32 * b6 + 64 * b7);
    } else if j == 1 {
        lemma_extract_bit(s, 2, b0, b1, b2 + 2 * b3 + 4 * b4 + 8 * b5 + 16 * b6 + 32 * b7);
    } else if j == 2 {
        lemma_extract_bit(s, 4, b0 + 2 * b1, b2, b3 + 2 * b4 + 4 * b5 + 8 * b6 + 16 * b7);
    } else if j == 3 {
        lemma_extract_bit(s, 8, b0 + 2 * b1 + 4 * b2, b3, b4 + 2 * b5 + 4 * b6 + 8 * b7);
    } else if j == 4 {
        lemma_extract_bit(s, 16, b0 + 2 * b1 + 4 * b2 + 8 * b3, b4, b5 + 2 * b6 + 4 * b7);
    } else if j == 5 {
        lemma_extract_bit(s, 32, b0 + 2 * b1 + 4 * b2 + 8 * b3 + 16 * b4, b5, b6 + 2 * b7);
    } else if j == 6 {
        lemma_extract_bit(s, 64, b0 + 2 * b1 + 4 * b2 + 8 * b3 + 16 * b4 + 32 * b5, b6, b7);
    } else {
        lemma_extract_bit(s, 128, b0 + 2 * b1 + 4 * b2 + 8 * b3 + 16 * b4 + 32 * b5 + 64 * b6, b7, 0);
    }
}

/// Unpacking a packed bit sequence gives the sequence back.
pub proof fn lemma_unpack_pack(v: Seq<bool>)
    ensures
        unpack_bits(pack_bits(v), v.len()) == v,
{
    let u = unpack_bits(pack_bits(v), v.len());
    assert forall|i: int| 0 <= i < v.len() implies u[i] == v[i] by {
        lemma_fundamental_div_mod(i, 8);
        lemma_mod_bound(i, 8);
        let q = i / 8;
        let r = i % 8;
        assert(0 <= q < pack_bits(v).len()) by {
            lemma_fundamental_div_mod((v.len() + 7) as int, 8);
            lemma_mod_bound((v.len() + 7) as int, 8);
        };
        assert(pack_bits(v)[q] == packed_byte(v, 8 * q));
        lemma_bit_of_packed(v, 8 * q, r);
        assert(8 * q + r == i);
    };
    assert(u =~= v);
}

fn p2_exec(j: usize) -> (r: u8)
    requires
        j < 8,
    ensures
        r as int == p2(j as int),
{
    if j == 0 {
        1
    } else if j == 1 {
        2
    } else if j == 2 {
        4
    } else if j == 3 {
        8
    } else if j == 4 {
        16
    } else if j == 5 {
        32
    } else if j == 6 {
        64
    } else {
        128
    }
}

/// Packs `v` into bytes, least-significant-bit first, zero padding.
pub fn pack_bits_exec(v: &[bool]) -> (out: Vec<u8>)
    requires
        v@.len() <= 2000,
    ensures
        out@ == pack_bits(v@),
{
    let n = v.len();
    let nbytes = (n + 7) / 8;
    let mut out: Vec<u8> = Vec::new();
    let mut i: usize = 0;
    while i < nbytes
        invariant
            n == v@.len() <= 2000,
            nbytes == (n + 7) / 8,
            out@.len() == i,
            i <= nbytes,
            forall|k: int| 0 <= k < i ==> out@[k] == packed_byte(v@, 8 * k),
        decreases nbytes - i,
    {
        let mut b: u8 = 0;
        let mut j: usize = 0;
        while j < 8
            invariant
                n == v@.len(),
                i < nbytes == (n + 7) / 8,
                j <= 8,
                b as int == packed_sum(v@, 8 * i as int, j as int),
                j < 8 ==> b as int <= p2(j as int) - 1,
                b as int <= 255,
            decreases 8 - j,
        {
            let idx = 8 * i + j;
            if idx < n && v[idx] {
                b = b + p2_exec(j);
            }
            j += 1;
        }
        out.push(b);
        i += 1;
    }
    proof {
        assert(out@ =~= pack_bits(v@));
    }
    out
}

/// Reads the first `n` bits out of `bytes`, least-significant-bit first.
pub fn unpack_bits_exec(bytes: &[u8], n: usize) -> (out: Vec<bool>)
    requires
        n <= 8 * bytes@.len(),
    ensures
        out@ == unpack_bits(bytes@, n as nat),
{
    let mut out: Vec<bool> = Vec::new();
    let mut i: usize = 0;
    while i < n
        invariant
            n <= 8 * bytes@.len(),
            out@.len() == i,
            i <= n,
            forall|k: int| 0 <= k < i ==> out@[k] == bit_of(bytes@[k / 8], k % 8),
        decreases n - i,
    {
        proof {
            lemma_fundamental_div_mod(i as int, 8);
            lemma_mod_bound(i as int, 8);
        }
        let byte = bytes[i / 8];
        let p = p2_exec(i % 8);
        out.push((byte / p) % 2 == 1);
        i += 1;
    }
    proof {
        assert(out@ =~= unpack_bits(bytes@, n as nat));
    }
    out
}

} // verus!
