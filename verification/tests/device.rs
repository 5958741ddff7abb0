use tetra_gl::device::GLDevice;
use tetra_gl::gl::GlCommand;
use tetra_gl::shader::{GlReply, ShaderBuilder, ShaderStep};
use tetra_gl::types::{BufferUsage, FilterMode, FrontFace, TetraError};

fn device() -> GLDevice {
    let (device, cmds) = GLDevice::new(7);
    assert_eq!(cmds, vec![GlCommand::BindVertexArray(Some(7))]);
    device
}

#[test]
fn startup_enables_culling_and_alpha_blending() {
    assert_eq!(
        GLDevice::startup_commands(),
        vec![
            GlCommand::Enable(glow::CULL_FACE),
            GlCommand::Enable(glow::BLEND),
            GlCommand::BlendFuncSeparate {
                src_rgb: glow::SRC_ALPHA,
                dst_rgb: glow::ONE_MINUS_SRC_ALPHA,
                src_alpha: glow::ONE,
                dst_alpha: glow::ONE_MINUS_SRC_ALPHA,
            },
        ]
    );
}

#[test]
fn new_device_defaults_to_nearest_filtering() {
    let device = device();
    assert_eq!(device.get_default_filter_mode(), FilterMode::Nearest);
}

#[test]
fn default_filter_mode_is_stored_and_applied_to_new_textures() {
    let mut device = device();
    device.set_default_filter_mode(FilterMode::Linear);
    assert_eq!(device.get_default_filter_mode(), FilterMode::Linear);
    let (texture, cmds) = device.new_texture_empty(3, 16, 8);
    assert_eq!(texture.filter_mode(), FilterMode::Linear);
    assert!(cmds.contains(&GlCommand::TexParameterI32 {
        target: glow::TEXTURE_2D,
        parameter: glow::TEXTURE_MIN_FILTER,
        value: glow::LINEAR as i32,
    }));
}

#[test]
fn drop_unbinds_and_deletes_the_vertex_array() {
    let device = device();
    assert_eq!(
        device.drop_commands(),
        vec![GlCommand::BindVertexArray(None), GlCommand::DeleteVertexArray(7)]
    );
}

#[test]
fn front_face_and_viewport_are_single_calls() {
    let device = device();
    assert_eq!(device.front_face(FrontFace::Clockwise), vec![GlCommand::FrontFace(glow::CW)]);
    assert_eq!(
        device.front_face(FrontFace::CounterClockwise),
        vec![GlCommand::FrontFace(glow::CCW)]
    );
    assert_eq!(
        device.viewport(1, 2, 640, 480),
        vec![GlCommand::Viewport { x: 1, y: 2, width: 640, height: 480 }]
    );
}

#[test]
fn new_vertex_buffer_binds_and_allocates_bytes() {
    let mut device = device();
    let (buffer, cmds) = device.new_vertex_buffer(11, 100, 8, BufferUsage::DynamicDraw);
    assert_eq!(buffer.id(), 11);
    assert_eq!(buffer.count(), 100);
    assert_eq!(buffer.stride(), 8);
    assert_eq!(
        cmds,
        vec![
            GlCommand::BindBuffer { target: glow::ARRAY_BUFFER, buffer: Some(11) },
            GlCommand::BufferDataSize { target: glow::ARRAY_BUFFER, size: 400, usage: glow::DYNAMIC_DRAW },
        ]
    );
}

#[test]
fn vertex_buffer_size_is_truncated_to_i32() {
    let mut device = device();
    let (_, cmds) = device.new_vertex_buffer(11, 1 << 30, 8, BufferUsage::StaticDraw);
    assert_eq!(
        cmds[1],
        GlCommand::BufferDataSize { target: glow::ARRAY_BUFFER, size: 0, usage: glow::STATIC_DRAW }
    );
}

#[test]
fn bound_vertex_buffer_is_not_bound_again() {
    let mut device = device();
    let (buffer, _) = device.new_vertex_buffer(11, 100, 8, BufferUsage::StaticDraw);
    assert_eq!(
        device.set_vertex_buffer_data(&buffer, 5),
        vec![GlCommand::BufferSubData { target: glow::ARRAY_BUFFER, offset: 20 }]
    );
    assert_eq!(
        device.set_vertex_buffer_attribute(&buffer, 1, 2, 3),
        vec![
            GlCommand::VertexAttribPointerF32 {
                index: 1,
                size: 2,
                data_type: glow::FLOAT,
                normalized: false,
                stride: 32,
                offset: 12,
            },
            GlCommand::EnableVertexAttribArray(1),
        ]
    );
}

#[test]
fn switching_vertex_buffers_rebinds() {
    let mut device = device();
    let (first, _) = device.new_vertex_buffer(11, 10, 4, BufferUsage::StaticDraw);
    let (_second, _) = device.new_vertex_buffer(12, 10, 4, BufferUsage::StaticDraw);
    assert_eq!(
        device.set_vertex_buffer_data(&first, 0),
        vec![
            GlCommand::BindBuffer { target: glow::ARRAY_BUFFER, buffer: Some(11) },
            GlCommand::BufferSubData { target: glow::ARRAY_BUFFER, offset: 0 },
        ]
    );
}

#[test]
fn index_buffer_uses_the_element_target() {
    let mut device = device();
    let (buffer, cmds) = device.new_index_buffer(21, 6, BufferUsage::StaticDraw);
    assert_eq!(buffer.id(), 21);
    assert_eq!(buffer.count(), 6);
    assert_eq!(
        cmds,
        vec![
            GlCommand::BindBuffer { target: glow::ELEMENT_ARRAY_BUFFER, buffer: Some(21) },
            GlCommand::BufferDataSize {
                target: glow::ELEMENT_ARRAY_BUFFER,
                size: 24,
                usage: glow::STATIC_DRAW,
            },
        ]
    );
    assert_eq!(
        device.set_index_buffer_data(&buffer, 2),
        vec![GlCommand::BufferSubData { target: glow::ELEMENT_ARRAY_BUFFER, offset: 8 }]
    );
}

#[test]
fn new_texture_empty_sets_up_the_texture() {
    let mut device = device();
    let (texture, cmds) = device.new_texture_empty(5, 32, 16);
    assert_eq!(texture.id(), 5);
    assert_eq!(texture.width(), 32);
    assert_eq!(texture.height(), 16);
    assert_eq!(texture.filter_mode(), FilterMode::Nearest);
    let param = |parameter: u32, value: i32| GlCommand::TexParameterI32 {
        target: glow::TEXTURE_2D,
        parameter,
        value,
    };
    assert_eq!(
        cmds,
        vec![
            GlCommand::ActiveTexture(glow::TEXTURE0),
            GlCommand::BindTexture { target: glow::TEXTURE_2D, texture: Some(5) },
            param(glow::TEXTURE_WRAP_S, glow::REPEAT as i32),
            param(glow::TEXTURE_WRAP_T, glow::REPEAT as i32),
            param(glow::TEXTURE_MIN_FILTER, glow::NEAREST as i32),
            param(glow::TEXTURE_MAG_FILTER, glow::NEAREST as i32),
            param(glow::TEXTURE_BASE_LEVEL, 0),
            param(glow::TEXTURE_MAX_LEVEL, 0),
            GlCommand::TexImage2D {
                target: glow::TEXTURE_2D,
                level: 0,
                internal_format: glow::RGBA as i32,
                width: 32,
                height: 16,
                border: 0,
                format: glow::RGBA,
                ty: glow::UNSIGNED_BYTE,
            },
        ]
    );
}

#[test]
fn texture_data_check_reports_both_counts() {
    assert_eq!(GLDevice::check_texture_data(2, 2, 16), Ok(()));
    assert_eq!(GLDevice::check_texture_data(2, 2, 100), Ok(()));
    assert_eq!(
        GLDevice::check_texture_data(2, 2, 15),
        Err(TetraError::NotEnoughData { expected: 16, actual: 15 })
    );
    assert_eq!(GLDevice::check_texture_data(0, 5, 0), Ok(()));
}

#[test]
fn negative_texture_size_wraps_to_a_huge_byte_count() {
    assert_eq!(
        GLDevice::check_texture_data(-1, 1, 1000),
        Err(TetraError::NotEnoughData { expected: (-4i64) as usize, actual: 1000 })
    );
}

#[test]
fn new_texture_writes_the_whole_image_after_setup() {
    let mut device = device();
    let data: Vec<u8> = (0..32).collect();
    let (texture, cmds) = device.new_texture(6, 4, 2, &data).unwrap();
    assert_eq!(texture.id(), 6);
    assert_eq!(cmds.len(), 10);
    assert_eq!(
        cmds[9],
        GlCommand::TexSubImage2D {
            target: glow::TEXTURE_2D,
            level: 0,
            x_offset: 0,
            y_offset: 0,
            width: 4,
            height: 2,
            format: glow::RGBA,
            ty: glow::UNSIGNED_BYTE,
            pixels: data.clone(),
        }
    );
}

#[test]
fn new_texture_refuses_short_data_without_calls() {
    let mut device = device();
    match device.new_texture(6, 2, 2, &[0u8; 15]) {
        Err(e) => assert_eq!(e, TetraError::NotEnoughData { expected: 16, actual: 15 }),
        Ok(_) => panic!("short data was accepted"),
    }
    let (texture, cmds) = device.new_texture_empty(6, 2, 2);
    assert_eq!(texture.id(), 6);
    assert_eq!(cmds[0], GlCommand::ActiveTexture(glow::TEXTURE0));
}

#[test]
fn new_texture_accepts_more_data_than_needed() {
    let mut device = device();
    let data = [7u8; 100];
    let (texture, cmds) = device.new_texture(6, 2, 2, &data).unwrap();
    assert_eq!(texture.width(), 2);
    assert_eq!(cmds.len(), 10);
    match &cmds[9] {
        GlCommand::TexSubImage2D { pixels, .. } => assert_eq!(pixels, &data.to_vec()),
        other => panic!("expected the image upload, got {:?}", other),
    }
}

#[test]
fn set_texture_data_writes_a_region() {
    let mut device = device();
    let (texture, _) = device.new_texture_empty(5, 32, 16);
    assert_eq!(
        device.set_texture_data(&texture, &[1, 2, 3], 1, 2, 3, 4),
        vec![GlCommand::TexSubImage2D {
            target: glow::TEXTURE_2D,
            level: 0,
            x_offset: 1,
            y_offset: 2,
            width: 3,
            height: 4,
            format: glow::RGBA,
            ty: glow::UNSIGNED_BYTE,
            pixels: vec![1, 2, 3],
        }]
    );
}

#[test]
fn set_texture_filter_mode_updates_texture_and_gl() {
    let mut device = device();
    let (mut first, _) = device.new_texture_empty(5, 32, 16);
    let (_second, _) = device.new_texture_empty(6, 32, 16);
    let cmds = device.set_texture_filter_mode(&mut first, FilterMode::Linear);
    assert_eq!(first.filter_mode(), FilterMode::Linear);
    assert_eq!(first.width(), 32);
    assert_eq!(
        cmds,
        vec![
            GlCommand::ActiveTexture(glow::TEXTURE0),
            GlCommand::BindTexture { target: glow::TEXTURE_2D, texture: Some(5) },
            GlCommand::TexParameterI32 {
                target: glow::TEXTURE_2D,
                parameter: glow::TEXTURE_MIN_FILTER,
                value: glow::LINEAR as i32,
            },
            GlCommand::TexParameterI32 {
                target: glow::TEXTURE_2D,
                parameter: glow::TEXTURE_MAG_FILTER,
                value: glow::LINEAR as i32,
            },
        ]
    );
}

#[test]
fn new_canvas_attaches_its_texture_and_stays_bound() {
    let mut device = device();
    let (framebuffer, texture, cmds) = device.new_canvas(40, 41, 64, 32, false);
    assert_eq!(framebuffer.id(), 40);
    assert_eq!(texture.id(), 41);
    assert_eq!(cmds.len(), 11);
    assert_eq!(
        cmds[9],
        GlCommand::BindFramebuffer { target: glow::FRAMEBUFFER, framebuffer: Some(40) }
    );
    assert_eq!(
        cmds[10],
        GlCommand::FramebufferTexture2D {
            target: glow::FRAMEBUFFER,
            attachment: glow::COLOR_ATTACHMENT0,
            texture_target: glow::TEXTURE_2D,
            texture: Some(41),
            level: 0,
        }
    );
    assert_eq!(device.bind_canvas(Some(&framebuffer)), vec![]);
    assert_eq!(
        device.bind_canvas(None),
        vec![GlCommand::BindFramebuffer { target: glow::FRAMEBUFFER, framebuffer: None }]
    );
}

#[test]
fn new_canvas_can_rebind_the_previous_framebuffer() {
    let mut device = device();
    let (first, _, _) = device.new_canvas(40, 41, 64, 32, false);
    let (_, _, cmds) = device.new_canvas(50, 51, 64, 32, true);
    assert_eq!(
        cmds.last(),
        Some(&GlCommand::BindFramebuffer { target: glow::FRAMEBUFFER, framebuffer: Some(40) })
    );
    assert_eq!(device.bind_canvas(Some(&first)), vec![]);
}

#[test]
fn draw_binds_everything_once() {
    let mut device = device();
    let (vb, _) = device.new_vertex_buffer(1, 12, 4, BufferUsage::StaticDraw);
    let (ib, _) = device.new_index_buffer(2, 6, BufferUsage::StaticDraw);
    let (tex, _) = device.new_texture_empty(3, 1, 1);
    let (other_vb, _) = device.new_vertex_buffer(9, 12, 4, BufferUsage::StaticDraw);
    let mut builder_device = device;
    let shader = build_shader(&mut builder_device, 4);
    let mut device = builder_device;
    let draw = GlCommand::DrawElements {
        mode: glow::TRIANGLES,
        count: 6,
        element_type: glow::UNSIGNED_INT,
        offset: 0,
    };
    assert_eq!(
        device.draw_elements(&vb, &ib, &tex, &shader, 6),
        vec![GlCommand::BindBuffer { target: glow::ARRAY_BUFFER, buffer: Some(1) }, draw.clone()]
    );
    assert_eq!(device.draw_elements(&vb, &ib, &tex, &shader, 6), vec![draw.clone()]);
    let again = device.draw_elements(&other_vb, &ib, &tex, &shader, 6);
    assert_eq!(
        again,
        vec![GlCommand::BindBuffer { target: glow::ARRAY_BUFFER, buffer: Some(9) }, draw]
    );
}

#[test]
fn use_shader_makes_the_program_current_once() {
    let mut device = device();
    let shader = build_shader(&mut device, 4);
    assert_eq!(device.use_shader(&shader), vec![]);
}

#[test]
fn handles_compare_by_gl_name() {
    let mut device = device();
    let (a, _) = device.new_texture_empty(5, 1, 1);
    let (b, _) = device.new_texture_empty(5, 2, 2);
    let (c, _) = device.new_texture_empty(6, 1, 1);
    assert!(a == b);
    assert!(a != c);
    assert_eq!(a.delete_command(), GlCommand::DeleteTexture(5));
    let (vb, _) = device.new_vertex_buffer(8, 1, 1, BufferUsage::StaticDraw);
    assert_eq!(vb.delete_command(), GlCommand::DeleteBuffer(8));
    let (fb, _, _) = device.new_canvas(30, 31, 1, 1, false);
    assert_eq!(fb.delete_command(), GlCommand::DeleteFramebuffer(30));
}

fn build_shader(device: &mut GLDevice, program: u32) -> tetra_gl::handles::GLProgram {
    let (mut builder, _) = ShaderBuilder::new();
    let replies = vec![
        GlReply::Created(Ok(program)),
        GlReply::Created(Ok(program + 1)),
        GlReply::Status(true),
        GlReply::Created(Ok(program + 2)),
        GlReply::Status(true),
        GlReply::Status(true),
        GlReply::Location(Some(0)),
    ];
    let mut last = None;
    for reply in replies {
        last = Some(builder.advance(device, reply));
    }
    match last {
        Some(ShaderStep::Finish { result: Ok(p), .. }) => {
            assert_eq!(p.id(), program);
            p
        }
        _ => panic!("the build did not finish with a program"),
    }
}
