//! A render-element decorator that draws a wrapped surface element through a
//! saturation shader, installing the shader only for the duration of the
//! wrapped element's draw call.
//!
//! The library holds what can be stated and proved without a GPU: the uniform
//! set handed to the shader, the decorator type, and the draw-time override
//! protocol as a state machine that a renderer backend drives.

mod element;
mod protocol;
mod uniforms;

pub use element::SaturatedSurfaceRenderElement;
pub use protocol::{
    draw_events, draw_steps, frame_view, frame_view_of, lemma_error_propagated_after_restore,
    lemma_override_lifecycle, override_active, run, transition, Backend, DrawAction, DrawEvent,
    DrawSession, DrawState, FrameView,
};
pub use uniforms::{saturation_uniforms, uniforms_for, uniforms_view, UniformEntry, SATURATION_UNIFORM};
