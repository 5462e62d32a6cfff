//! Integers as the VM writes them: big-endian, two's complement, no more bytes
//! than needed.
use vstd::prelude::*;

verus! {

/// The unsigned big-endian value of a byte string.
pub open spec fn be_value(bytes: Seq<u8>) -> nat
    decreases bytes.len(),
{
    if bytes.len() == 0 {
        0
    } else {
        be_value(bytes.drop_last()) * 256 + bytes.last() as nat
    }
}

/// 256 to the power `n`.
pub open spec fn pow256(n: nat) -> nat
    decreases n,
{
    if n == 0 {
        1
    } else {
        256 * pow256((n - 1) as nat)
    }
}

/// The two's complement big-endian value of a byte string.
pub open spec fn signed_value(bytes: Seq<u8>) -> int {
    if bytes.len() > 0 && bytes[0] >= 0x80 {
        be_value(bytes) - pow256(bytes.len())
    } else {
        be_value(bytes) as int
    }
}

/// The big-endian digits of `v` without leading zeros; none for zero.
pub open spec fn digits(v: nat) -> Seq<u8>
    decreases v,
{
    if v == 0 {
        Seq::empty()
    } else {
        digits(v / 256).push((v % 256) as u8)
    }
}

/// The atom that stands for the unsigned number `v`: its digits, with a zero
/// byte in front where the first digit would read as a sign.
pub open spec fn uint_atom(v: nat) -> Seq<u8> {
    let d = digits(v);
    if d.len() > 0 && d[0] >= 0x80 {
        seq![0u8] + d
    } else {
        d
    }
}

/// The bytes that a fixed-width decoder of `len` bytes reads from an atom:
/// an atom longer than `len` is cut to its last `len` bytes if its first byte
/// is the padding byte and refused otherwise; a shorter one is padded in front.
pub open spec fn decoded_number(s: Seq<u8>, len: nat, signed: bool) -> Option<Seq<u8>> {
    let negative = signed && s.len() > 0 && s[0] >= 0x80;
    let pad = if negative {
        0xFFu8
    } else {
        0u8
    };
    let t = if s.len() > len && s[0] == pad {
        s.subrange(s.len() - len, s.len() as int)
    } else {
        s
    };
    if t.len() > len {
        None
    } else {
        Some(Seq::new((len - t.len()) as nat, |i: int| pad) + t)
    }
}

/// The unsigned number that a decoder of `len` bytes reads from an atom.
pub open spec fn decoded_unsigned(s: Seq<u8>, len: nat) -> Option<nat> {
    match decoded_number(s, len, false) {
        Some(bytes) => Some(be_value(bytes)),
        None => None,
    }
}

/// The signed number that a decoder of `len` bytes reads from an atom.
pub open spec fn decoded_signed(s: Seq<u8>, len: nat) -> Option<int> {
    match decoded_number(s, len, true) {
        Some(bytes) => Some(signed_value(bytes)),
        None => None,
    }
}

/// `clvm_traits::encode_number` on the big-endian bytes of an unsigned number:
/// leading zero bytes are dropped and one is put back where the first byte
/// left has its top bit set.
#[verifier::external_body]
fn encode_number_u64(v: u64) -> (r: Vec<u8>)
    ensures
        r@ == uint_atom(v as nat),
{
    clvm_traits::encode_number(&v.to_be_bytes(), false)
}

/// `clvm_traits::decode_number`, as its source reads: the atom cut or padded
/// to `LEN` bytes, or `None` where it is too long.
#[verifier::external_body]
fn decode_number<const LEN: usize>(atom: &[u8], signed: bool) -> (r: Option<[u8; LEN]>)
    ensures
        match r {
            Some(bytes) => decoded_number(atom@, LEN as nat, signed) == Some(bytes@),
            None => decoded_number(atom@, LEN as nat, signed) is None,
        },
{
    clvm_traits::decode_number::<LEN>(atom, signed)
}

/// `BigInt::from(v).to_signed_bytes_be()` of `num_bigint`: the digits of `v`
/// with a zero byte in front where the first digit has its top bit set; zero
/// is written as one zero byte.
#[verifier::external_body]
fn bigint_signed_bytes_be(v: u64) -> (r: Vec<u8>)
    ensures
        r@ == (if v == 0 {
            seq![0u8]
        } else {
            uint_atom(v as nat)
        }),
{
    num_bigint::BigInt::from(v).to_signed_bytes_be()
}

/// `BigInt::from_signed_bytes_be` of `num_bigint`, then `u64::try_from`: the
/// two's complement value of the bytes where it fits a `u64`.
#[verifier::external_body]
fn bigint_to_u64(bytes: &[u8]) -> (r: Option<u64>)
    ensures
        match r {
            Some(v) => v == signed_value(bytes@),
            None => signed_value(bytes@) < 0 || signed_value(bytes@) > u64::MAX,
        },
{
    u64::try_from(&num_bigint::BigInt::from_signed_bytes_be(bytes)).ok()
}

pub proof fn lemma_pow256_values()
    ensures
        pow256(0) == 1,
        pow256(1) == 0x100,
        pow256(2) == 0x1_0000,
        pow256(3) == 0x100_0000,
        pow256(4) == 0x1_0000_0000,
        pow256(5) == 0x100_0000_0000,
        pow256(6) == 0x1_0000_0000_0000,
        pow256(7) == 0x100_0000_0000_0000,
        pow256(8) == 0x1_0000_0000_0000_0000,
{
    reveal_with_fuel(pow256, 10);
}

/// A byte string of `n` bytes is below 256 to the `n`.
pub proof fn lemma_be_value_bound(bytes: Seq<u8>)
    ensures
        be_value(bytes) < pow256(bytes.len()),
    decreases bytes.len(),
{
    if bytes.len() > 0 {
        lemma_be_value_bound(bytes.drop_last());
    }
}

/// Zero bytes in front do not change the value.
pub proof fn lemma_be_value_leading_zeros(k: nat, bytes: Seq<u8>)
    ensures
        be_value(Seq::new(k, |i: int| 0u8) + bytes) == be_value(bytes),
    decreases bytes.len(),
{
    let zeros = Seq::new(k, |i: int| 0u8);
    if bytes.len() == 0 {
        assert(zeros + bytes =~= zeros);
        lemma_be_value_zeros(k);
    } else {
        assert((zeros + bytes).drop_last() =~= zeros + bytes.drop_last());
        lemma_be_value_leading_zeros(k, bytes.drop_last());
    }
}

/// A string of zero bytes has the value zero.
pub proof fn lemma_be_value_zeros(k: nat)
    ensures
        be_value(Seq::new(k, |i: int| 0u8)) == 0,
    decreases k,
{
    if k > 0 {
        assert(Seq::new(k, |i: int| 0u8).drop_last() =~= Seq::new((k - 1) as nat, |i: int| 0u8));
        lemma_be_value_zeros((k - 1) as nat);
    }
}

/// The digits of a number have its value, start with a digit that is not zero,
/// and are no more than the number needs.
pub proof fn lemma_digits(v: nat)
    ensures
        be_value(digits(v)) == v,
        v > 0 ==> digits(v).len() > 0 && digits(v)[0] != 0,
        v == 0 ==> digits(v).len() == 0,
        forall|n: nat| v < pow256(n) ==> digits(v).len() <= n,
    decreases v,
{
    if v > 0 {
        lemma_digits(v / 256);
        let d = digits(v / 256);
        assert(digits(v).drop_last() =~= d);
        assert(digits(v).last() == (v % 256) as u8);
        if v / 256 > 0 {
            assert(digits(v)[0] == d[0]);
        }
        assert forall|n: nat| v < pow256(n) implies digits(v).len() <= n by {
            if n == 0 {
            } else {
                assert(v / 256 < pow256((n - 1) as nat));
            }
        }
    }
}

/// The atom of an unsigned number reads back as that number.
pub proof fn lemma_uint_atom_value(v: nat)
    ensures
        signed_value(uint_atom(v)) == v,
        be_value(uint_atom(v)) == v,
{
    lemma_digits(v);
    let d = digits(v);
    if d.len() > 0 && d[0] >= 0x80 {
        assert(seq![0u8] =~= Seq::new(1, |i: int| 0u8));
        lemma_be_value_leading_zeros(1, d);
    }
}

/// A decoder of eight bytes reads the atom of a `u64` back as that number.
pub proof fn lemma_decode_uint_atom(v: u64)
    ensures
        decoded_unsigned(uint_atom(v as nat), 8) == Some(v as nat),
{
    let s = uint_atom(v as nat);
    let d = digits(v as nat);
    lemma_digits(v as nat);
    lemma_pow256_values();
    assert(d.len() <= 8);
    lemma_uint_atom_value(v as nat);
    if s.len() > 8 {
        assert(s =~= seq![0u8] + d);
        assert(s.subrange(s.len() - 8, s.len() as int) =~= d);
        assert(Seq::new(0, |i: int| 0u8) + d =~= d);
    } else {
        lemma_be_value_leading_zeros((8 - s.len()) as nat, s);
    }
}

/// A decoder of two bytes reads the atom of a `u16` back as that number.
pub proof fn lemma_decode_uint_atom_u16(v: u16)
    ensures
        decoded_unsigned(uint_atom(v as nat), 2) == Some(v as nat),
{
    let s = uint_atom(v as nat);
    let d = digits(v as nat);
    lemma_digits(v as nat);
    lemma_pow256_values();
    assert(d.len() <= 2);
    lemma_uint_atom_value(v as nat);
    if s.len() > 2 {
        assert(s =~= seq![0u8] + d);
        assert(s.subrange(s.len() - 2, s.len() as int) =~= d);
        assert(Seq::new(0, |i: int| 0u8) + d =~= d);
    } else {
        lemma_be_value_leading_zeros((2 - s.len()) as nat, s);
    }
}

/// The value of a fixed number of bytes, at most eight.
fn be_to_u64<const LEN: usize>(bytes: &[u8; LEN]) -> (r: u64)
    requires
        LEN <= 8,
    ensures
        r == be_value(bytes@),
{
    let mut acc: u64 = 0;
    let mut i: usize = 0;
    proof {
        lemma_pow256_values();
        assert(bytes@.subrange(0, 0) =~= Seq::<u8>::empty());
    }
    while i < LEN
        invariant
            i <= LEN,
            LEN <= 8,
            acc == be_value(bytes@.subrange(0, i as int)),
            acc < pow256(i as nat),
        decreases LEN - i,
    {
        proof {
            let next = bytes@.subrange(0, i + 1);
            assert(next.drop_last() =~= bytes@.subrange(0, i as int));
            lemma_be_value_bound(next);
            lemma_pow256_monotonic((i + 1) as nat, 8);
            lemma_pow256_values();
        }
        acc = acc * 256 + bytes[i] as u64;
        i += 1;
    }
    assert(bytes@.subrange(0, LEN as int) =~= bytes@);
    acc
}

pub proof fn lemma_pow256_monotonic(a: nat, b: nat)
    requires
        a <= b,
    ensures
        pow256(a) <= pow256(b),
        pow256(a) > 0,
    decreases b,
{
    if a < b {
        lemma_pow256_monotonic(a, (b - 1) as nat);
    } else if a > 0 {
        lemma_pow256_monotonic((a - 1) as nat, (b - 1) as nat);
    }
}

/// Writes an unsigned number as an atom.
pub fn encode_u64(v: u64) -> (r: Vec<u8>)
    ensures
        r@ == uint_atom(v as nat),
{
    encode_number_u64(v)
}

/// Reads an atom as a `u64`.
pub fn decode_u64(atom: &[u8]) -> (r: Option<u64>)
    ensures
        match r {
            Some(v) => decoded_unsigned(atom@, 8) == Some(v as nat),
            None => decoded_unsigned(atom@, 8) is None,
        },
{
    match decode_number::<8>(atom, false) {
        Some(bytes) => Some(be_to_u64::<8>(&bytes)),
        None => None,
    }
}

/// Reads an atom as a `u16`.
pub fn decode_u16(atom: &[u8]) -> (r: Option<u16>)
    ensures
        match r {
            Some(v) => decoded_unsigned(atom@, 2) == Some(v as nat),
            None => decoded_unsigned(atom@, 2) is None,
        },
{
    match decode_number::<2>(atom, false) {
        Some(bytes) => {
            proof {
                lemma_be_value_bound(bytes@);
                lemma_pow256_values();
            }
            Some(be_to_u64::<2>(&bytes) as u16)
        },
        None => None,
    }
}

/// Reads an atom as a `u8`.
pub fn decode_u8(atom: &[u8]) -> (r: Option<u8>)
    ensures
        match r {
            Some(v) => decoded_unsigned(atom@, 1) == Some(v as nat),
            None => decoded_unsigned(atom@, 1) is None,
        },
{
    match decode_number::<1>(atom, false) {
        Some(bytes) => {
            proof {
                lemma_be_value_bound(bytes@);
                lemma_pow256_values();
            }
            Some(be_to_u64::<1>(&bytes) as u8)
        },
        None => None,
    }
}

/// Reads an atom as an `i32`.
pub fn decode_i32(atom: &[u8]) -> (r: Option<i32>)
    ensures
        match r {
            Some(v) => decoded_signed(atom@, 4) == Some(v as int),
            None => decoded_signed(atom@, 4) is None,
        },
{
    match decode_number::<4>(atom, true) {
        Some(bytes) => {
            proof {
                lemma_be_value_bound(bytes@);
                lemma_pow256_values();
                lemma_top_bit(bytes@);
            }
            let u: u64 = be_to_u64::<4>(&bytes);
            if u >= 0x8000_0000 {
                Some((u as i64 - 0x1_0000_0000i64) as i32)
            } else {
                Some(u as i32)
            }
        },
        None => None,
    }
}

/// Reads an atom as an `i8`.
pub fn decode_i8(atom: &[u8]) -> (r: Option<i8>)
    ensures
        match r {
            Some(v) => decoded_signed(atom@, 1) == Some(v as int),
            None => decoded_signed(atom@, 1) is None,
        },
{
    match decode_number::<1>(atom, true) {
        Some(bytes) => {
            proof {
                lemma_be_value_bound(bytes@);
                lemma_pow256_values();
                lemma_top_bit(bytes@);
            }
            let u: u64 = be_to_u64::<1>(&bytes);
            if u >= 0x80 {
                Some((u as i64 - 0x100i64) as i8)
            } else {
                Some(u as i8)
            }
        },
        None => None,
    }
}

/// The first byte has its top bit set exactly when the value is in the upper
/// half of its range.
pub proof fn lemma_top_bit(bytes: Seq<u8>)
    requires
        bytes.len() > 0,
    ensures
        bytes[0] >= 0x80 <==> 2 * be_value(bytes) >= pow256(bytes.len()),
    decreases bytes.len(),
{
    if bytes.len() == 1 {
        assert(bytes.drop_last() =~= Seq::<u8>::empty());
        reveal_with_fuel(pow256, 2);
        reveal_with_fuel(be_value, 2);
    } else {
        lemma_top_bit(bytes.drop_last());
        assert(bytes.drop_last()[0] == bytes[0]);
    }
}

/// Writes a fee as the smallest signed big-endian byte string: none for zero.
pub fn encode_fee(fee: u64) -> (r: Vec<u8>)
    ensures
        r@ == uint_atom(fee as nat),
{
    let bytes = bigint_signed_bytes_be(fee);
    let mut start: usize = 0;
    proof {
        lemma_digits(fee as nat);
    }
    while start < bytes.len() && bytes[start] == 0 && !(bytes.len() - start > 1 && bytes[start
        + 1] & 0x80 == 0x80)
        invariant
            start <= bytes.len(),
            bytes@.subrange(start as int, bytes@.len() as int) == (if start == 0 {
                bytes@
            } else {
                uint_atom(fee as nat)
            }),
            bytes@ == (if fee == 0 {
                seq![0u8]
            } else {
                uint_atom(fee as nat)
            }),
            fee != 0 ==> start == 0,
            digits(fee as nat).len() == 0 <==> fee == 0,
            fee != 0 ==> digits(fee as nat)[0] != 0,
        decreases bytes.len() - start,
    {
        proof {
            if fee != 0 {
                let d = digits(fee as nat);
                if d[0] >= 0x80 {
                    assert(bytes@ == seq![0u8] + d);
                    let top = bytes@[1];
                    assert(top == d[0]);
                    assert(top >= 0x80 ==> top & 0x80 == 0x80) by (bit_vector);
                    assert(false);
                } else {
                    assert(bytes@ == d);
                    assert(false);
                }
            }
            assert(bytes@.subrange(1, 1) =~= uint_atom(0));
        }
        start += 1;
    }
    let mut out: Vec<u8> = Vec::new();
    let mut i: usize = start;
    while i < bytes.len()
        invariant
            start <= i <= bytes.len(),
            out@ == bytes@.subrange(start as int, i as int),
        decreases bytes.len() - i,
    {
        out.push(bytes[i]);
        assert(out@ =~= bytes@.subrange(start as int, i + 1));
        i += 1;
    }
    proof {
        if start == 0 {
            assert(bytes@.subrange(0, bytes@.len() as int) =~= bytes@);
            if fee == 0 {
                assert(false);
            }
        }
    }
    out
}

/// Reads a fee from a signed big-endian byte string.
pub fn decode_fee(bytes: &[u8]) -> (r: Option<u64>)
    ensures
        match r {
            Some(v) => v == signed_value(bytes@),
            None => signed_value(bytes@) < 0 || signed_value(bytes@) > u64::MAX,
        },
{
    bigint_to_u64(bytes)
}

} // verus!
