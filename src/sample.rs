use vstd::prelude::*;
use crate::format::{SampleFormat, StreamVariant};

verus! {

/// One audio sample in one of the four streamable formats. A 32-bit float
/// sample is carried by its IEEE-754 bit pattern.
#[derive(Clone, Copy, Debug, PartialEq, Eq, Structural)]
pub enum Sample {
    I8(i8),
    I16(i16),
    I32(i32),
    F32Bits(u32),
}

/// The streaming variant a sample belongs to.
pub open spec fn variant_of_sample(s: Sample) -> StreamVariant {
    match s {
        Sample::I8(_) => StreamVariant::I8,
        Sample::I16(_) => StreamVariant::I16,
        Sample::I32(_) => StreamVariant::I32,
        Sample::F32Bits(_) => StreamVariant::F32,
    }
}

/// Width in bits of the integer variants.
pub open spec fn int_width(v: StreamVariant) -> nat {
    match v {
        StreamVariant::I8 => 8,
        StreamVariant::I16 => 16,
        _ => 32,
    }
}

/// The value of an integer sample.
pub open spec fn int_value(s: Sample) -> int {
    match s {
        Sample::I8(x) => x as int,
        Sample::I16(x) => x as int,
        Sample::I32(x) => x as int,
        Sample::F32Bits(_) => 0,
    }
}

pub open spec fn is_int_variant(v: StreamVariant) -> bool {
    v != StreamVariant::F32
}

/// Two to the power of a difference between the integer widths (8, 16 or 24).
pub open spec fn width_factor(diff: nat) -> int {
    if diff == 0 {
        1
    } else if diff == 8 {
        256
    } else if diff == 16 {
        65536
    } else {
        16777216
    }
}

/// Rescaling of a signed integer sample between widths: widening multiplies
/// by the power of two between the widths, narrowing divides by it and rounds
/// toward negative infinity (an arithmetic right shift).
pub open spec fn rescale(x: int, from_bits: nat, to_bits: nat) -> int {
    if from_bits <= to_bits {
        x * width_factor((to_bits - from_bits) as nat)
    } else {
        x / width_factor((from_bits - to_bits) as nat)
    }
}

pub open spec fn make_int_sample(v: StreamVariant, x: int) -> Sample {
    match v {
        StreamVariant::I8 => Sample::I8(x as i8),
        StreamVariant::I16 => Sample::I16(x as i16),
        _ => Sample::I32(x as i32),
    }
}

/// The conversion of a sample to a target variant: the identity where the
/// variants agree, a rescaling between integer widths, and nothing between a
/// float and an integer variant.
pub open spec fn convert_spec(s: Sample, target: StreamVariant) -> Option<Sample> {
    let from = variant_of_sample(s);
    if from == target {
        Some(s)
    } else if is_int_variant(from) && is_int_variant(target) {
        Some(make_int_sample(target, rescale(int_value(s), int_width(from), int_width(target))))
    } else {
        None
    }
}

/// Floor division by a positive divisor.
fn floor_div(x: i32, d: i32) -> (r: i32)
    requires
        d > 0,
    ensures
        r as int == x as int / d as int,
{
    if x >= 0 {
        x / d
    } else {
        let y: i32 = -(x + 1);
        let q: i32 = y / d;
        proof {
            let m = y as int % d as int;
            vstd::arithmetic::div_mod::lemma_fundamental_div_mod(y as int, d as int);
            assert(y as int == d as int * q as int + m);
            assert(x as int == (-q as int - 1) * d as int + (d as int - m - 1)) by (nonlinear_arith)
                requires
                    y as int == d as int * q as int + m,
                    y as int == -(x as int + 1),
            ;
            vstd::arithmetic::div_mod::lemma_fundamental_div_mod_converse(
                x as int,
                d as int,
                -q as int - 1,
                d as int - m - 1,
            );
        }
        -q - 1
    }
}

/// Converts one sample to the target variant: identical variants keep the
/// sample, integer widths rescale by the power of two between them, and a
/// conversion between float and integer is not offered.
pub fn convert_sample(s: Sample, target: StreamVariant) -> (r: Option<Sample>)
    ensures
        r == convert_spec(s, target),
{
    match (s, target) {
        (Sample::I8(_), StreamVariant::I8) => Some(s),
        (Sample::I16(_), StreamVariant::I16) => Some(s),
        (Sample::I32(_), StreamVariant::I32) => Some(s),
        (Sample::F32Bits(_), StreamVariant::F32) => Some(s),
        (Sample::I8(x), StreamVariant::I16) => Some(Sample::I16(x as i16 * 256)),
        (Sample::I8(x), StreamVariant::I32) => Some(Sample::I32(x as i32 * 16777216)),
        (Sample::I16(x), StreamVariant::I32) => Some(Sample::I32(x as i32 * 65536)),
        (Sample::I16(x), StreamVariant::I8) => Some(Sample::I8(floor_div(x as i32, 256) as i8)),
        (Sample::I32(x), StreamVariant::I8) => Some(Sample::I8(floor_div(x, 16777216) as i8)),
        (Sample::I32(x), StreamVariant::I16) => Some(Sample::I16(floor_div(x, 65536) as i16)),
        _ => None,
    }
}

/// Converting a sample to its own variant gives it back unchanged.
pub proof fn lemma_convert_identity(s: Sample)
    ensures
        convert_spec(s, variant_of_sample(s)) == Some(s),
{
}

} // verus!
