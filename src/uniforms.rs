use vstd::prelude::*;

verus! {

/// Name of the single float uniform that the saturation shader reads.
pub const SATURATION_UNIFORM: &'static str = "niri_saturation";

/// One uniform handed to the shader program.
///
/// The value is a single-precision float, carried as its IEEE-754 bit
/// pattern so that it passes through unchanged, bit for bit.
#[derive(Clone, Copy, Debug, PartialEq, Eq)]
pub struct UniformEntry {
    pub name: &'static str,
    pub value_bits: u32,
}

/// The uniform set for a saturation value: exactly one entry, named
/// `niri_saturation`, holding that value.
pub open spec fn saturation_uniforms(saturation_bits: u32) -> Seq<(Seq<char>, u32)> {
    seq![(SATURATION_UNIFORM@, saturation_bits)]
}

/// The uniform set as names and values.
pub open spec fn uniforms_view(u: Seq<UniformEntry>) -> Seq<(Seq<char>, u32)> {
    u.map_values(|e: UniformEntry| (e.name@, e.value_bits))
}

/// Computes the uniforms that accompany the saturation program.
pub fn uniforms_for(saturation_bits: u32) -> (r: Vec<UniformEntry>)
    ensures
        uniforms_view(r@) == saturation_uniforms(saturation_bits),
        r@.len() == 1,
        r@[0].name@ == SATURATION_UNIFORM@,
        r@[0].value_bits == saturation_bits,
{
    let r = vec![UniformEntry { name: SATURATION_UNIFORM, value_bits: saturation_bits }];
    assert(uniforms_view(r@) =~= saturation_uniforms(saturation_bits));
    r
}

} // verus!
