//! Field elements of BN254 as 32-byte big-endian integers: the range check
//! that public inputs must pass, and the negation of a G1 point.
use crate::errors::Groth16Error;
use vstd::arithmetic::power::pow;
use vstd::prelude::*;

verus! {

/// The unsigned integer that the bytes `s` spell, most significant first.
pub open spec fn be_value(s: Seq<u8>) -> nat
    decreases s.len(),
{
    if s.len() == 0 {
        0
    } else {
        be_value(s.drop_last()) * 256 + s.last() as nat
    }
}

/// Order of the BN254 groups, the modulus of the scalar field:
/// 21888242871839275222246405745257275088548364400416034343698204186575808495617.
pub open spec fn scalar_modulus() -> nat {
    be_value(scalar_modulus_bytes())
}

/// The modulus of the BN254 base field, in which point coordinates live:
/// 21888242871839275222246405745257275088696311157297823662689037894645226208583.
pub open spec fn base_modulus() -> nat {
    be_value(base_modulus_bytes())
}

pub open spec fn scalar_modulus_bytes() -> Seq<u8> {
    seq![
        48u8, 100, 78, 114, 225, 49, 160, 41, 184, 80, 69, 182, 129, 129, 88, 93,
        40, 51, 232, 72, 121, 185, 112, 145, 67, 225, 245, 147, 240, 0, 0, 1,
    ]
}

pub open spec fn base_modulus_bytes() -> Seq<u8> {
    seq![
        48u8, 100, 78, 114, 225, 49, 160, 41, 184, 80, 69, 182, 129, 129, 88, 93,
        151, 129, 106, 145, 104, 113, 202, 141, 60, 32, 140, 22, 216, 124, 253, 71,
    ]
}

/// The bytes of a value bound it by the powers of 256.
pub proof fn lemma_be_value_bound(s: Seq<u8>)
    ensures
        be_value(s) < pow(256, s.len()),
    decreases s.len(),
{
    if s.len() == 0 {
        vstd::arithmetic::power::lemma_pow0(256);
    } else {
        lemma_be_value_bound(s.drop_last());
        vstd::arithmetic::power::lemma_pow_adds(256, (s.len() - 1) as nat, 1);
        vstd::arithmetic::power::lemma_pow1(256);
        let p = pow(256, (s.len() - 1) as nat);
        let v = be_value(s.drop_last());
        assert(v * 256 + s.last() < p * 256) by (nonlinear_arith)
            requires
                v < p,
                s.last() < 256,
        ;
    }
}

/// Splitting the bytes at `k` splits the value: the high part is scaled by
/// 256 for each byte of the low part.
pub proof fn lemma_be_value_split(s: Seq<u8>, k: int)
    requires
        0 <= k <= s.len(),
    ensures
        be_value(s) == be_value(s.subrange(0, k)) * pow(256, (s.len() - k) as nat) + be_value(
            s.subrange(k, s.len() as int),
        ),
    decreases s.len(),
{
    if k == s.len() {
        assert(s.subrange(0, k) =~= s);
        assert(s.subrange(k, s.len() as int) =~= Seq::<u8>::empty());
        vstd::arithmetic::power::lemma_pow0(256);
    } else {
        let d = s.drop_last();
        lemma_be_value_split(d, k);
        assert(d.subrange(0, k) =~= s.subrange(0, k));
        let low = s.subrange(k, s.len() as int);
        assert(low.drop_last() =~= d.subrange(k, d.len() as int));
        vstd::arithmetic::power::lemma_pow_adds(256, (d.len() - k) as nat, 1);
        vstd::arithmetic::power::lemma_pow1(256);
        let h = be_value(s.subrange(0, k));
        let p = pow(256, (d.len() - k) as nat);
        let l = be_value(d.subrange(k, d.len() as int));
        assert((h * p + l) * 256 + s.last() == h * (p * 256) + (l * 256 + s.last())) by (nonlinear_arith);
    }
}

/// The value of a suffix, peeled by its first byte.
proof fn lemma_be_value_first(s: Seq<u8>, i: int)
    requires
        0 <= i < s.len(),
    ensures
        be_value(s.subrange(i, s.len() as int)) == s[i] * pow(256, (s.len() - i - 1) as nat)
            + be_value(s.subrange(i + 1, s.len() as int)),
{
    let t = s.subrange(i, s.len() as int);
    lemma_be_value_split(t, 1);
    assert(t.subrange(1, t.len() as int) =~= s.subrange(i + 1, s.len() as int));
    let one = t.subrange(0, 1);
    assert(one.drop_last() =~= Seq::<u8>::empty());
    assert(be_value(one.drop_last()) == 0);
    assert(be_value(one) == s[i]);
    assert(t.len() - 1 == s.len() - i - 1);
}

/// Whether the value that `a` spells is below the one that `b` spells.
fn be_less_than(a: &[u8; 32], b: &[u8; 32]) -> (r: bool)
    ensures
        r == (be_value(a@) < be_value(b@)),
{
    // order of the prefixes read so far: -1 below, 0 equal, 1 above
    let mut ord: i8 = 0;
    let mut i: usize = 0;
    while i < 32
        invariant
            i <= 32,
            a@.len() == 32,
            b@.len() == 32,
            -1 <= ord <= 1,
            ord == 0 <==> be_value(a@.subrange(0, i as int)) == be_value(b@.subrange(0, i as int)),
            ord < 0 <==> be_value(a@.subrange(0, i as int)) < be_value(b@.subrange(0, i as int)),
        decreases 32 - i,
    {
        let x = a[i];
        let y = b[i];
        proof {
            let pa = a@.subrange(0, i as int);
            let pb = b@.subrange(0, i as int);
            assert(a@.subrange(0, i + 1).drop_last() =~= pa);
            assert(b@.subrange(0, i + 1).drop_last() =~= pb);
            let va = be_value(pa);
            let vb = be_value(pb);
            if va < vb {
                assert(va * 256 + x < vb * 256 + y) by (nonlinear_arith)
                    requires
                        va + 1 <= vb,
                        x < 256,
                ;
            } else if vb < va {
                assert(vb * 256 + y < va * 256 + x) by (nonlinear_arith)
                    requires
                        vb + 1 <= va,
                        y < 256,
                ;
            }
        }
        if ord == 0 {
            if x < y {
                ord = -1;
            } else if x > y {
                ord = 1;
            }
        }
        i = i + 1;
    }
    assert(a@.subrange(0, 32) =~= a@);
    assert(b@.subrange(0, 32) =~= b@);
    ord < 0
}

fn scalar_modulus_array() -> (r: [u8; 32])
    ensures
        r@ == scalar_modulus_bytes(),
{
    let r: [u8; 32] = [
        48u8, 100, 78, 114, 225, 49, 160, 41, 184, 80, 69, 182, 129, 129, 88, 93,
        40, 51, 232, 72, 121, 185, 112, 145, 67, 225, 245, 147, 240, 0, 0, 1,
    ];
    assert(r@ =~= scalar_modulus_bytes());
    r
}

fn base_modulus_array() -> (r: [u8; 32])
    ensures
        r@ == base_modulus_bytes(),
{
    let r: [u8; 32] = [
        48u8, 100, 78, 114, 225, 49, 160, 41, 184, 80, 69, 182, 129, 129, 88, 93,
        151, 129, 106, 145, 104, 113, 202, 141, 60, 32, 140, 22, 216, 124, 253, 71,
    ];
    assert(r@ =~= base_modulus_bytes());
    r
}

/// Whether the big-endian `scalar` is a scalar-field element, that is below
/// the group order. Values at or above it are refused, never reduced.
pub fn is_less_than_scalar_modulus(scalar: &[u8; 32]) -> (r: bool)
    ensures
        r == (be_value(scalar@) < scalar_modulus()),
{
    let m = scalar_modulus_array();
    be_less_than(scalar, &m)
}

/// Whether the big-endian `coordinate` is a base-field element.
pub fn is_less_than_base_modulus(coordinate: &[u8; 32]) -> (r: bool)
    ensures
        r == (be_value(coordinate@) < base_modulus()),
{
    let m = base_modulus_array();
    be_less_than(coordinate, &m)
}

/// The base-field modulus minus `y`, as 32 big-endian bytes.
fn sub_from_base_modulus(y: &[u8; 32]) -> (r: [u8; 32])
    requires
        be_value(y@) <= base_modulus(),
    ensures
        be_value(r@) == base_modulus() - be_value(y@),
{
    let m = base_modulus_array();
    let mut r: [u8; 32] = [0u8; 32];
    let mut borrow: u8 = 0;
    let mut i: usize = 32;
    proof {
        assert(r@.subrange(32, 32) =~= Seq::<u8>::empty());
        assert(y@.subrange(32, 32) =~= Seq::<u8>::empty());
        assert(m@.subrange(32, 32) =~= Seq::<u8>::empty());
    }
    while i > 0
        invariant
            i <= 32,
            borrow <= 1,
            r@.len() == 32,
            y@.len() == 32,
            m@ == base_modulus_bytes(),
            be_value(r@.subrange(i as int, 32)) + be_value(y@.subrange(i as int, 32)) == be_value(
                m@.subrange(i as int, 32),
            ) + borrow * pow(256, (32 - i) as nat),
        decreases i,
    {
        let ghost old_r = r@;
        let ghost old_borrow = borrow;
        i = i - 1;
        let mi: u16 = m[i] as u16;
        let yi: u16 = y[i] as u16 + borrow as u16;
        let digit: u8;
        if mi >= yi {
            digit = (mi - yi) as u8;
            borrow = 0;
        } else {
            digit = (mi + 256 - yi) as u8;
            borrow = 1;
        }
        r[i] = digit;
        proof {
            assert(r@.subrange(i + 1, 32) =~= old_r.subrange(i + 1, 32));
            lemma_be_value_first(r@, i as int);
            lemma_be_value_first(y@, i as int);
            lemma_be_value_first(m@, i as int);
            let p = pow(256, (31 - i) as nat);
            vstd::arithmetic::power::lemma_pow_adds(256, (31 - i) as nat, 1);
            vstd::arithmetic::power::lemma_pow1(256);
            let rr = be_value(old_r.subrange(i + 1, 32));
            let yy = be_value(y@.subrange(i + 1, 32));
            let mm = be_value(m@.subrange(i + 1, 32));
            assert(digit + y@[i as int] + old_borrow == m@[i as int] + 256 * borrow);
            assert(digit * p + rr + (y@[i as int] * p + yy) == m@[i as int] * p + mm + borrow * (p
                * 256)) by (nonlinear_arith)
                requires
                    rr + yy == mm + old_borrow * p,
                    digit + y@[i as int] + old_borrow == m@[i as int] + 256 * borrow,
            ;
        }
    }
    proof {
        assert(r@.subrange(0, 32) =~= r@);
        assert(y@.subrange(0, 32) =~= y@);
        assert(m@.subrange(0, 32) =~= m@);
        lemma_be_value_bound(r@);
    }
    r
}

/// Whether `y` spells zero.
fn is_zero(y: &[u8; 32]) -> (r: bool)
    ensures
        r == (be_value(y@) == 0),
{
    let zero: [u8; 32] = [0u8; 32];
    proof {
        lemma_be_value_zeroes(zero@, 32);
        assert(zero@.subrange(0, 32) =~= zero@);
    }
    !be_less_than(&zero, y)
}

proof fn lemma_be_value_zeroes(z: Seq<u8>, k: nat)
    requires
        k <= z.len(),
        forall|j: int| 0 <= j < z.len() ==> z[j] == 0,
    ensures
        be_value(z.subrange(0, k as int)) == 0,
    decreases k,
{
    if k > 0 {
        assert(z.subrange(0, k as int).drop_last() =~= z.subrange(0, k - 1));
        lemma_be_value_zeroes(z, (k - 1) as nat);
    }
}

/// Negates the y-coordinate of the 64-byte G1 point `point` in the base
/// field, keeping x: the point `-P`. The point at infinity, y = 0, is its own
/// negation. Where a coordinate is not a base-field element the point is
/// no curve point and the proof that holds it cannot verify: this fails
/// with `ProofVerificationFailed`, as a failed check does.
pub fn negate_g1(point: &[u8; 64]) -> (r: Result<[u8; 64], Groth16Error>)
    ensures
        r is Ok <==> (be_value(point@.subrange(0, 32)) < base_modulus() && be_value(
            point@.subrange(32, 64),
        ) < base_modulus()),
        r is Err ==> r->Err_0 == Groth16Error::ProofVerificationFailed,
        r is Ok ==> r->Ok_0@.subrange(0, 32) == point@.subrange(0, 32) && be_value(
            r->Ok_0@.subrange(32, 64),
        ) == field_neg(be_value(point@.subrange(32, 64))),
{
    let mut x: [u8; 32] = [0u8; 32];
    let mut y: [u8; 32] = [0u8; 32];
    let mut i: usize = 0;
    while i < 32
        invariant
            i <= 32,
            point@.len() == 64,
            x@.len() == 32,
            y@.len() == 32,
            forall|j: int| 0 <= j < i ==> x@[j] == point@[j] && y@[j] == point@[j + 32],
        decreases 32 - i,
    {
        x[i] = point[i];
        y[i] = point[i + 32];
        i = i + 1;
    }
    assert(x@ =~= point@.subrange(0, 32));
    assert(y@ =~= point@.subrange(32, 64));
    if !is_less_than_base_modulus(&x) || !is_less_than_base_modulus(&y) {
        return Err(Groth16Error::ProofVerificationFailed);
    }
    let neg_y: [u8; 32] = if is_zero(&y) {
        y
    } else {
        sub_from_base_modulus(&y)
    };
    let mut out: [u8; 64] = *point;
    let mut k: usize = 0;
    while k < 32
        invariant
            k <= 32,
            out@.len() == 64,
            neg_y@.len() == 32,
            point@.len() == 64,
            forall|j: int| 0 <= j < 32 ==> out@[j] == point@[j],
            forall|j: int| 0 <= j < k ==> out@[j + 32] == neg_y@[j],
        decreases 32 - k,
    {
        out[k + 32] = neg_y[k];
        k = k + 1;
    }
    assert(out@.subrange(0, 32) =~= point@.subrange(0, 32));
    assert(out@.subrange(32, 64) =~= neg_y@);
    Ok(out)
}

/// Negation in the base field of a value below its modulus.
pub open spec fn field_neg(v: nat) -> nat {
    if v == 0 {
        0
    } else {
        (base_modulus() - v) as nat
    }
}

} // verus!
