use vstd::prelude::*;
use vstd::arithmetic::power2::{lemma2_to64, lemma_pow2_strictly_increases, lemma_pow2_unfold, pow2};

verus! {

// IEEE 754 bit-pattern arithmetic. The host hands doubles in as their
// 64-bit patterns; the machine's 32-bit float type is reached by an
// exact-fitting demotion, and 32-bit results widen losslessly back to
// 64-bit patterns. Everything here is plain integer and shift
// arithmetic on those patterns.
//
// A 64-bit pattern is sign (1 bit), exponent (11 bits, bias 1023),
// fraction (52 bits); a 32-bit pattern is sign, exponent (8 bits,
// bias 127), fraction (23 bits). A 32-bit exponent field e stands for
// the 64-bit field e + 896; a 32-bit fraction widens by a left shift
// of 29.

/// Normalizes the significand of a subnormal 32-bit float while
/// widening: doubles `frac` until the implicit leading bit appears,
/// lowering the biased 64-bit exponent in step.
pub open spec fn spec_normalize_sub(frac: u64, biased: u64) -> (u64, u64)
    decreases 0x100_0000 - frac,
        when 0 < frac < 0x100_0000
{
    if frac >= 0x80_0000 {
        (frac, biased)
    } else {
        spec_normalize_sub((frac * 2) as u64, (biased - 1) as u64)
    }
}

/// The 64-bit pattern denoting exactly the same value (and for NaNs,
/// the same payload placement) as the given 32-bit pattern.
pub open spec fn spec_promote(b: u32) -> u64 {
    let s = (b >> 31) as u64;
    let e = ((b >> 23) & 0xFF) as u64;
    let f = (b & 0x7F_FFFF) as u64;
    if e == 0xFF {
        // infinity or NaN: maximal exponent, payload widened
        (s << 63) | (0x7FFu64 << 52) | (f << 29)
    } else if e != 0 {
        // normal number
        (s << 63) | (((e + 896) as u64) << 52) | (f << 29)
    } else if f == 0 {
        // signed zero
        s << 63
    } else {
        // subnormal: normalize, then place as a normal 64-bit float
        let nf = spec_normalize_sub(f, 897).0;
        let nb = spec_normalize_sub(f, 897).1;
        (s << 63) | (nb << 52) | (((nf - 0x80_0000) as u64) << 29)
    }
}

/// The 32-bit pattern that widens exactly to the given 64-bit
/// pattern, if one exists. `None` when the value (or NaN payload)
/// cannot be carried in 32 bits without change.
pub open spec fn spec_demote_exact(b: u64) -> Option<u32> {
    let s = (b >> 63) as u32;
    let e = (b >> 52) & 0x7FF;
    let f = b & 0xF_FFFF_FFFF_FFFF;
    if e == 0 && f == 0 {
        Some(s << 31)
    } else if e == 0x7FF {
        // infinity or NaN: the payload must sit in the top 23
        // fraction bits
        if f & 0x1FFF_FFFF == 0 {
            Some((s << 31) | 0x7F80_0000 | ((f >> 29) as u32))
        } else {
            None
        }
    } else if 897 <= e && e <= 1150 {
        // lands on a normal 32-bit float
        if f & 0x1FFF_FFFF == 0 {
            Some((s << 31) | (((e - 896) as u32) << 23) | ((f >> 29) as u32))
        } else {
            None
        }
    } else if 874 <= e && e <= 896 {
        // lands on a subnormal 32-bit float: the shifted-out bits of
        // the full significand must be zero
        let sig = 0x10_0000_0000_0000u64 | f;
        let shift = (926 - e) as u64;
        if sig & (((1u64 << shift) - 1) as u64) == 0 {
            Some((s << 31) | ((sig >> shift) as u32))
        } else {
            None
        }
    } else {
        None
    }
}

/// Widens a 32-bit float pattern to the 64-bit pattern of the same
/// value.
pub fn promote_f32_bits(b: u32) -> (r: u64)
    ensures
        r == spec_promote(b),
{
    let s: u64 = (b >> 31) as u64;
    let e: u64 = ((b >> 23) & 0xFF) as u64;
    let f: u64 = (b & 0x7F_FFFF) as u64;
    if e == 0xFF {
        (s << 63) | (0x7FFu64 << 52) | (f << 29)
    } else if e != 0 {
        (s << 63) | ((e + 896) << 52) | (f << 29)
    } else if f == 0 {
        s << 63
    } else {
        let mut frac: u64 = f;
        let mut biased: u64 = 897;
        proof {
            lemma2_to64();
            assert(b & 0x7F_FFFF < 0x80_0000) by (bit_vector);
        }
        while frac < 0x80_0000
            invariant
                0 < frac < 0x100_0000,
                874 <= biased <= 897,
                pow2((897 - biased) as nat) <= frac,
                spec_normalize_sub(frac, biased) == spec_normalize_sub((b & 0x7F_FFFF) as u64, 897),
            decreases 0x100_0000 - frac,
        {
            proof {
                lemma2_to64();
                assert(897 - biased < 23) by {
                    lemma2_to64();
                    if 897 - biased > 23 {
                        lemma_pow2_strictly_increases(23nat, (897 - biased) as nat);
                    }
                }
                lemma_pow2_unfold((898 - biased) as nat);
            }
            frac = frac * 2;
            biased = biased - 1;
        }
        assert(spec_normalize_sub(frac, biased) == (frac, biased));
        (s << 63) | (biased << 52) | ((frac - 0x80_0000) << 29)
    }
}

/// Narrows a 64-bit float pattern to 32 bits when that loses nothing,
/// reporting `None` otherwise.
pub fn demote_f64_bits_exact(b: u64) -> (r: Option<u32>)
    ensures
        r == spec_demote_exact(b),
{
    let s: u32 = (b >> 63) as u32;
    let e: u64 = (b >> 52) & 0x7FF;
    let f: u64 = b & 0xF_FFFF_FFFF_FFFF;
    if e == 0 && f == 0 {
        Some(s << 31)
    } else if e == 0x7FF {
        if f & 0x1FFF_FFFF == 0 {
            Some((s << 31) | 0x7F80_0000 | ((f >> 29) as u32))
        } else {
            None
        }
    } else if 897 <= e && e <= 1150 {
        if f & 0x1FFF_FFFF == 0 {
            Some((s << 31) | (((e - 896) as u32) << 23) | ((f >> 29) as u32))
        } else {
            None
        }
    } else if 874 <= e && e <= 896 {
        let sig: u64 = 0x10_0000_0000_0000u64 | f;
        let shift: u64 = 926 - e;
        proof {
            assert(1u64 << shift >= 1) by (bit_vector)
                requires
                    30 <= shift <= 52,
            ;
        }
        if sig & ((1u64 << shift) - 1) == 0 {
            Some((s << 31) | ((sig >> shift) as u32))
        } else {
            None
        }
    } else {
        None
    }
}

/// Normalizing a significand that is an exact right shift of a full
/// 53-bit significand walks back to the shift by 29, one doubling
/// per step.
proof fn lemma_normalize_shifted(sig: u64, sh: u64, b: u64)
    requires
        0x10_0000_0000_0000 <= sig < 0x20_0000_0000_0000,
        29 <= sh <= 52,
        sig & (((1u64 << sh) - 1) as u64) == 0,
        sh - 29 <= b,
    ensures
        spec_normalize_sub((sig >> sh) as u64, b) == (((sig >> 29) as u64, (b - (sh - 29)) as u64)),
    decreases sh,
{
    assert(sig >> 29 >= 0x80_0000 && sig >> 29 < 0x100_0000) by (bit_vector)
        requires
            0x10_0000_0000_0000 <= sig < 0x20_0000_0000_0000,
    ;
    if sh == 29 {
    } else {
        assert(0 < (sig >> sh) < 0x80_0000) by (bit_vector)
            requires
                30 <= sh <= 52 && 0x10_0000_0000_0000 <= sig < 0x20_0000_0000_0000,
        ;
        assert(((sig >> sh) * 2) as u64 == sig >> ((sh - 1) as u64) && sig & (((1u64 << ((sh
            - 1) as u64)) - 1) as u64) == 0) by (bit_vector)
            requires
                30 <= sh <= 52 && sig & (((1u64 << sh) - 1) as u64) == 0 && sig
                    < 0x20_0000_0000_0000,
        ;
        lemma_normalize_shifted(sig, (sh - 1) as u64, (b - 1) as u64);
    }
}

/// Normalization only doubles: the result is the input shifted left
/// until its leading bit stands at position 23, the exponent lowered
/// by the same count.
proof fn lemma_normalize_forward(frac: u64, b: u64)
    requires
        0 < frac < 0x100_0000,
        874 <= b <= 897,
        0x80_0000 <= (frac << ((b - 874) as u64)) as u64,
    ensures
        ({
            let nf = spec_normalize_sub(frac, b).0;
            let nb = spec_normalize_sub(frac, b).1;
            &&& 874 <= nb <= b
            &&& nf == (frac << ((b - nb) as u64)) as u64
            &&& 0x80_0000 <= nf < 0x100_0000
        }),
    decreases 0x100_0000 - frac,
{
    if frac >= 0x80_0000 {
        assert(frac == (frac << 0u64) as u64) by (bit_vector);
    } else {
        assert(874 < b) by (bit_vector)
            requires
                frac < 0x80_0000 && 874 <= b <= 897 && 0x80_0000 <= (frac << ((b - 874) as u64))
                    as u64,
        ;
        let ff = (frac * 2) as u64;
        assert(ff < 0x100_0000 && 0x80_0000 <= (ff << ((b - 875) as u64)) as u64) by (bit_vector)
            requires
                ff == (frac * 2) as u64 && frac < 0x80_0000 && 875 <= b <= 897 && 0x80_0000 <= (
                frac << ((b - 874) as u64)) as u64,
        ;
        lemma_normalize_forward(ff, (b - 1) as u64);
        let nb = spec_normalize_sub(frac, b).1;
        assert(spec_normalize_sub(frac, b) == spec_normalize_sub(ff, (b - 1) as u64));
        let k = ((b - 1 - nb) as u64);
        assert((ff << k) as u64 == (frac << ((k + 1) as u64)) as u64) by (bit_vector)
            requires
                ff == (frac * 2) as u64 && frac < 0x80_0000 && k <= 23,
        ;
    }
}

/// A 64-bit pattern that demotes exactly widens back to itself: the
/// demotion loses nothing.
pub proof fn lemma_demote_promote_roundtrip(b: u64, c: u32)
    requires
        spec_demote_exact(b) == Some(c),
    ensures
        spec_promote(c) == b,
{
    let e = (b >> 52) & 0x7FF;
    let f = b & 0xF_FFFF_FFFF_FFFF;
    if e == 0 && f == 0 {
        assert({
            let c2 = ((b >> 63) as u32) << 31;
            ((c2 >> 23) & 0xFF == 0) && (c2 & 0x7F_FFFF == 0) && ((((c2 >> 31) as u64) << 63)
                == b)
        }) by (bit_vector)
            requires
                (b >> 52) & 0x7FF == 0 && b & 0xF_FFFF_FFFF_FFFF == 0,
        ;
    } else if e == 0x7FF {
        assert({
            let c2 = (((b >> 63) as u32) << 31) | 0x7F80_0000 | (((b & 0xF_FFFF_FFFF_FFFF)
                >> 29) as u32);
            ((c2 >> 23) & 0xFF == 0xFF) && ((((c2 >> 31) as u64) << 63) | (0x7FFu64 << 52) | (((
            c2 & 0x7F_FFFF) as u64) << 29) == b)
        }) by (bit_vector)
            requires
                (b >> 52) & 0x7FF == 0x7FF && (b & 0xF_FFFF_FFFF_FFFF) & 0x1FFF_FFFF == 0,
        ;
    } else if 897 <= e && e <= 1150 {
        assert({
            let c2 = (((b >> 63) as u32) << 31) | (((((b >> 52) & 0x7FF) - 896) as u32) << 23) | (
            ((b & 0xF_FFFF_FFFF_FFFF) >> 29) as u32);
            ((c2 >> 23) & 0xFF == ((b >> 52) & 0x7FF) - 896) && (1 <= (c2 >> 23) & 0xFF <= 254)
                && ((((c2 >> 31) as u64) << 63) | (((((c2 >> 23) & 0xFF) as u64 + 896) as u64)
                << 52) | (((c2 & 0x7F_FFFF) as u64) << 29) == b)
        }) by (bit_vector)
            requires
                897 <= (b >> 52) & 0x7FF <= 1150 && (b & 0xF_FFFF_FFFF_FFFF) & 0x1FFF_FFFF == 0,
        ;
    } else {
        let sig = 0x10_0000_0000_0000u64 | f;
        let sh = (926 - e) as u64;
        assert({
            let sig2 = 0x10_0000_0000_0000u64 | (b & 0xF_FFFF_FFFF_FFFF);
            let sh2 = (926 - ((b >> 52) & 0x7FF)) as u64;
            let c2 = (((b >> 63) as u32) << 31) | ((sig2 >> sh2) as u32);
            (0x10_0000_0000_0000 <= sig2 < 0x20_0000_0000_0000) && (30 <= sh2 <= 52) && ((c2
                >> 23) & 0xFF == 0) && (c2 & 0x7F_FFFF == (sig2 >> sh2) as u32) && ((sig2 >> sh2)
                as u32 != 0) && (((c2 & 0x7F_FFFF) as u64) == sig2 >> sh2)
        }) by (bit_vector)
            requires
                874 <= (b >> 52) & 0x7FF <= 896 && (0x10_0000_0000_0000u64 | (b
                    & 0xF_FFFF_FFFF_FFFF)) & (((1u64 << ((926 - ((b >> 52) & 0x7FF)) as u64)) - 1)
                    as u64) == 0,
        ;
        lemma_normalize_shifted(sig, sh, 897);
        assert({
            let sig2 = 0x10_0000_0000_0000u64 | (b & 0xF_FFFF_FFFF_FFFF);
            let sh2 = (926 - ((b >> 52) & 0x7FF)) as u64;
            let c2 = (((b >> 63) as u32) << 31) | ((sig2 >> sh2) as u32);
            (((c2 >> 31) as u64) << 63) | (((897 - (sh2 - 29)) as u64) << 52) | ((((sig2 >> 29)
                - 0x80_0000) as u64) << 29) == b
        }) by (bit_vector)
            requires
                874 <= (b >> 52) & 0x7FF <= 896 && (0x10_0000_0000_0000u64 | (b
                    & 0xF_FFFF_FFFF_FFFF)) & (((1u64 << ((926 - ((b >> 52) & 0x7FF)) as u64)) - 1)
                    as u64) == 0,
        ;
    }
}

/// Every 32-bit pattern demotes back out of its own widening: the
/// widening is an exact embedding.
pub proof fn lemma_promote_demote_roundtrip(c: u32)
    ensures
        spec_demote_exact(spec_promote(c)) == Some(c),
{
    let e2 = ((c >> 23) & 0xFF) as u64;
    let f2 = (c & 0x7F_FFFF) as u64;
    assert((c >> 23) & 0xFF < 0x100 && c & 0x7F_FFFF < 0x80_0000) by (bit_vector);
    if e2 == 0xFF {
        assert({
            let b = ((((c >> 31) as u64)) << 63) | (0x7FFu64 << 52) | ((((c & 0x7F_FFFF)
                as u64)) << 29);
            &&& (b >> 52) & 0x7FF == 0x7FF
            &&& (b & 0xF_FFFF_FFFF_FFFF) & 0x1FFF_FFFF == 0
            &&& ((((b >> 63) as u32) << 31) | 0x7F80_0000 | (((b & 0xF_FFFF_FFFF_FFFF) >> 29)
                as u32)) == c
        }) by (bit_vector)
            requires
                (c >> 23) & 0xFF == 0xFF,
        ;
    } else if e2 != 0 {
        assert({
            let b = ((((c >> 31) as u64)) << 63) | ((((((c >> 23) & 0xFF) as u64) + 896) as u64)
                << 52) | ((((c & 0x7F_FFFF) as u64)) << 29);
            &&& 897 <= (b >> 52) & 0x7FF <= 1150
            &&& (b & 0xF_FFFF_FFFF_FFFF) & 0x1FFF_FFFF == 0
            &&& ((((b >> 63) as u32) << 31) | (((((b >> 52) & 0x7FF) - 896) as u32) << 23) | (((b
                & 0xF_FFFF_FFFF_FFFF) >> 29) as u32)) == c
        }) by (bit_vector)
            requires
                1 <= (c >> 23) & 0xFF <= 254,
        ;
    } else if f2 == 0 {
        assert({
            let b = (((c >> 31) as u64)) << 63;
            &&& (b >> 52) & 0x7FF == 0
            &&& b & 0xF_FFFF_FFFF_FFFF == 0
            &&& (((b >> 63) as u32) << 31) == c
        }) by (bit_vector)
            requires
                (c >> 23) & 0xFF == 0 && c & 0x7F_FFFF == 0,
        ;
    } else {
        assert(0x80_0000 <= (f2 << ((897 - 874) as u64)) as u64) by (bit_vector)
            requires
                f2 == (c & 0x7F_FFFF) as u64 && c & 0x7F_FFFF != 0,
        ;
        lemma_normalize_forward(f2, 897);
        let nf = spec_normalize_sub(f2, 897).0;
        let nb = spec_normalize_sub(f2, 897).1;
        assert(nb <= 896) by (bit_vector)
            requires
                nf == ((f2 << ((897 - nb) as u64)) as u64) && f2 < 0x80_0000 && 0x80_0000 <= nf
                    && 874 <= nb <= 897,
        ;
        assert({
            let b = ((((c >> 31) as u64)) << 63) | (nb << 52) | (((nf - 0x80_0000) as u64)
                << 29);
            &&& 874 <= (b >> 52) & 0x7FF <= 896
            &&& (b >> 52) & 0x7FF == nb
            &&& (0x10_0000_0000_0000u64 | (b & 0xF_FFFF_FFFF_FFFF)) == (nf << 29u64) as u64
            &&& ((nf << 29u64) as u64) & (((1u64 << (((926 - nb)) as u64)) - 1) as u64) == 0
            &&& ((((b >> 63) as u32) << 31) | ((((nf << 29u64) as u64) >> ((926 - nb) as u64))
                as u32)) == c
        }) by (bit_vector)
            requires
                (c >> 23) & 0xFF == 0 && c & 0x7F_FFFF != 0 && nf == (((c & 0x7F_FFFF) as u64)
                    << ((897 - nb) as u64)) as u64 && 0x80_0000 <= nf < 0x100_0000 && 874 <= nb
                    <= 896,
        ;
    }
}

} // verus!
