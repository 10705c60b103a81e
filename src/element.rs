use vstd::prelude::*;

use crate::uniforms::{saturation_uniforms, uniforms_for, uniforms_view, UniformEntry};

verus! {

/// A render element that draws a wrapped element through a saturation
/// shader program.
///
/// `E` is the wrapped element, which answers every query; `P` is a handle
/// to the compiled program, shared with the shader registry that owns it.
/// The saturation is a single-precision float carried as its bit pattern;
/// no range is imposed on it. Nothing is changed after construction.
#[derive(Debug)]
pub struct SaturatedSurfaceRenderElement<E, P> {
    inner: E,
    program: P,
    saturation_bits: u32,
}

impl<E, P> SaturatedSurfaceRenderElement<E, P> {
    pub closed spec fn spec_inner(&self) -> E {
        self.inner
    }

    pub closed spec fn spec_program(&self) -> P {
        self.program
    }

    pub closed spec fn spec_saturation_bits(&self) -> u32 {
        self.saturation_bits
    }

    /// Wraps `elem`, to be drawn with `program` at the given saturation.
    pub fn new(elem: E, program: P, saturation_bits: u32) -> (r: Self)
        ensures
            r.spec_inner() == elem,
            r.spec_program() == program,
            r.spec_saturation_bits() == saturation_bits,
    {
        SaturatedSurfaceRenderElement { inner: elem, program, saturation_bits }
    }

    /// The wrapped element, which answers every query on the decorator with
    /// the same arguments and an unmodified result.
    pub fn inner(&self) -> (r: &E)
        ensures
            *r == self.spec_inner(),
    {
        &self.inner
    }

    /// The program installed while the wrapped element draws.
    pub fn program(&self) -> (r: &P)
        ensures
            *r == self.spec_program(),
    {
        &self.program
    }

    /// The saturation, as the bit pattern of a single-precision float.
    pub fn saturation_bits(&self) -> (r: u32)
        ensures
            r == self.spec_saturation_bits(),
    {
        self.saturation_bits
    }

    /// The uniforms installed with the program: one entry, `niri_saturation`,
    /// holding the saturation.
    pub fn compute_uniforms(&self) -> (r: Vec<UniformEntry>)
        ensures
            uniforms_view(r@) == saturation_uniforms(self.spec_saturation_bits()),
            r@.len() == 1,
            r@[0].value_bits == self.spec_saturation_bits(),
    {
        uniforms_for(self.saturation_bits)
    }

    /// Whether the element offers its underlying storage for direct scanout.
    /// Never: a buffer put straight on a display plane would bypass the
    /// shader, so the element is always composited, whatever the wrapped
    /// element offers.
    pub fn has_underlying_storage(&self) -> (r: bool)
        ensures
            !r,
    {
        false
    }
}

} // verus!
