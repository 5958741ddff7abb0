use tetra_gl::gl;
use tetra_gl::types::{BufferUsage, FilterMode, FrontFace};

#[test]
fn enumerants_match_glow() {
    assert_eq!(gl::ARRAY_BUFFER, glow::ARRAY_BUFFER);
    assert_eq!(gl::ELEMENT_ARRAY_BUFFER, glow::ELEMENT_ARRAY_BUFFER);
    assert_eq!(gl::STATIC_DRAW, glow::STATIC_DRAW);
    assert_eq!(gl::DYNAMIC_DRAW, glow::DYNAMIC_DRAW);
    assert_eq!(gl::CW, glow::CW);
    assert_eq!(gl::CCW, glow::CCW);
    assert_eq!(gl::NEAREST, glow::NEAREST);
    assert_eq!(gl::LINEAR, glow::LINEAR);
    assert_eq!(gl::CULL_FACE, glow::CULL_FACE);
    assert_eq!(gl::BLEND, glow::BLEND);
    assert_eq!(gl::ONE, glow::ONE);
    assert_eq!(gl::SRC_ALPHA, glow::SRC_ALPHA);
    assert_eq!(gl::ONE_MINUS_SRC_ALPHA, glow::ONE_MINUS_SRC_ALPHA);
    assert_eq!(gl::FLOAT, glow::FLOAT);
    assert_eq!(gl::UNSIGNED_BYTE, glow::UNSIGNED_BYTE);
    assert_eq!(gl::UNSIGNED_INT, glow::UNSIGNED_INT);
    assert_eq!(gl::VERTEX_SHADER, glow::VERTEX_SHADER);
    assert_eq!(gl::FRAGMENT_SHADER, glow::FRAGMENT_SHADER);
    assert_eq!(gl::TEXTURE0, glow::TEXTURE0);
    assert_eq!(gl::TEXTURE_2D, glow::TEXTURE_2D);
    assert_eq!(gl::TEXTURE_WRAP_S, glow::TEXTURE_WRAP_S);
    assert_eq!(gl::TEXTURE_WRAP_T, glow::TEXTURE_WRAP_T);
    assert_eq!(gl::REPEAT, glow::REPEAT);
    assert_eq!(gl::TEXTURE_MIN_FILTER, glow::TEXTURE_MIN_FILTER);
    assert_eq!(gl::TEXTURE_MAG_FILTER, glow::TEXTURE_MAG_FILTER);
    assert_eq!(gl::TEXTURE_BASE_LEVEL, glow::TEXTURE_BASE_LEVEL);
    assert_eq!(gl::TEXTURE_MAX_LEVEL, glow::TEXTURE_MAX_LEVEL);
    assert_eq!(gl::RGBA, glow::RGBA);
    assert_eq!(gl::FRAMEBUFFER, glow::FRAMEBUFFER);
    assert_eq!(gl::COLOR_ATTACHMENT0, glow::COLOR_ATTACHMENT0);
    assert_eq!(gl::TRIANGLES, glow::TRIANGLES);
}

#[test]
fn buffer_usage_converts_to_gl_hint() {
    assert_eq!(u32::from(BufferUsage::StaticDraw), glow::STATIC_DRAW);
    assert_eq!(u32::from(BufferUsage::DynamicDraw), glow::DYNAMIC_DRAW);
}

#[test]
fn front_face_converts_to_gl_winding() {
    assert_eq!(u32::from(FrontFace::Clockwise), glow::CW);
    assert_eq!(u32::from(FrontFace::CounterClockwise), glow::CCW);
}

#[test]
fn filter_mode_converts_to_gl_filter() {
    assert_eq!(i32::from(FilterMode::Nearest), glow::NEAREST as i32);
    assert_eq!(i32::from(FilterMode::Linear), glow::LINEAR as i32);
    assert_eq!(i32::from(FilterMode::Nearest), 0x2600);
}

#[test]
fn attribute_and_uniform_names() {
    assert_eq!(gl::Attribute::Position.name(), "a_position");
    assert_eq!(gl::Attribute::Uv.name(), "a_uv");
    assert_eq!(gl::Attribute::Color.name(), "a_color");
    assert_eq!(gl::Uniform::Texture.name(), "u_texture");
}
