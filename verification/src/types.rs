//! The device's settings and its errors, and the GL values the settings stand for.
use vstd::prelude::*;
use vstd::std_specs::convert::FromSpecImpl;
use crate::gl::{CCW, CW, DYNAMIC_DRAW, LINEAR, NEAREST, STATIC_DRAW};

verus! {

/// How a buffer's contents will be used.
#[derive(Clone, Copy, Debug, PartialEq, Eq, Structural)]
pub enum BufferUsage {
    StaticDraw,
    DynamicDraw,
}

/// Which winding order marks a triangle as facing the viewer.
#[derive(Clone, Copy, Debug, PartialEq, Eq, Structural)]
pub enum FrontFace {
    Clockwise,
    CounterClockwise,
}

/// How a texture is sampled when it is scaled.
#[derive(Clone, Copy, Debug, PartialEq, Eq, Structural)]
pub enum FilterMode {
    Nearest,
    Linear,
}

/// The ways a device operation can fail.
#[derive(Clone, Debug, PartialEq, Eq)]
pub enum TetraError {
    /// The platform's GL layer refused a request; the text is its message.
    PlatformError(String),
    /// A shader did not compile, or a program did not link; the text is the
    /// info log.
    InvalidShader(String),
    /// Fewer bytes of texture data were given than the texture needs.
    NotEnoughData { expected: usize, actual: usize },
}

/// The GL usage hint of a buffer usage.
pub open spec fn usage_value(u: BufferUsage) -> u32 {
    match u {
        BufferUsage::StaticDraw => STATIC_DRAW,
        BufferUsage::DynamicDraw => DYNAMIC_DRAW,
    }
}

/// The GL winding order of a front face.
pub open spec fn front_face_value(f: FrontFace) -> u32 {
    match f {
        FrontFace::Clockwise => CW,
        FrontFace::CounterClockwise => CCW,
    }
}

/// The GL filter of a filter mode, as a texture parameter.
pub open spec fn filter_value(f: FilterMode) -> i32 {
    match f {
        FilterMode::Nearest => NEAREST as i32,
        FilterMode::Linear => LINEAR as i32,
    }
}

impl From<BufferUsage> for u32 {
    fn from(buffer_usage: BufferUsage) -> (r: u32) {
        match buffer_usage {
            BufferUsage::StaticDraw => STATIC_DRAW,
            BufferUsage::DynamicDraw => DYNAMIC_DRAW,
        }
    }
}

impl FromSpecImpl<BufferUsage> for u32 {
    open spec fn obeys_from_spec() -> bool {
        true
    }

    open spec fn from_spec(v: BufferUsage) -> u32 {
        usage_value(v)
    }
}

impl From<FrontFace> for u32 {
    fn from(front_face: FrontFace) -> (r: u32) {
        match front_face {
            FrontFace::Clockwise => CW,
            FrontFace::CounterClockwise => CCW,
        }
    }
}

impl FromSpecImpl<FrontFace> for u32 {
    open spec fn obeys_from_spec() -> bool {
        true
    }

    open spec fn from_spec(v: FrontFace) -> u32 {
        front_face_value(v)
    }
}

impl From<FilterMode> for i32 {
    fn from(filter_mode: FilterMode) -> (r: i32) {
        match filter_mode {
            FilterMode::Nearest => NEAREST as i32,
            FilterMode::Linear => LINEAR as i32,
        }
    }
}

impl FromSpecImpl<FilterMode> for i32 {
    open spec fn obeys_from_spec() -> bool {
        true
    }

    open spec fn from_spec(v: FilterMode) -> i32 {
        filter_value(v)
    }
}

/// Law: each setting stands for its GL value: static draw for static use,
/// dynamic draw for dynamic use; clockwise and counter-clockwise winding;
/// nearest and linear filtering.
pub proof fn lemma_settings_stand_for_their_gl_values()
    ensures
        usage_value(BufferUsage::StaticDraw) == 0x88E4,
        usage_value(BufferUsage::DynamicDraw) == 0x88E8,
        front_face_value(FrontFace::Clockwise) == 0x0900,
        front_face_value(FrontFace::CounterClockwise) == 0x0901,
        filter_value(FilterMode::Nearest) == 0x2600,
        filter_value(FilterMode::Linear) == 0x2601,
        forall|u: BufferUsage| #[trigger] usage_value(u) == STATIC_DRAW <==> u == BufferUsage::StaticDraw,
        forall|f: FrontFace| #[trigger] front_face_value(f) == CW <==> f == FrontFace::Clockwise,
        forall|f: FilterMode| #[trigger] filter_value(f) == NEAREST as i32 <==> f == FilterMode::Nearest,
{
}

} // verus!
