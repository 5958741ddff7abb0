//! The device: a cache of what the GL context has bound, and the planning of
//! every operation as a list of GL calls.
//!
//! Each operation returns the calls it has decided on, in order, and updates
//! the cache as though they had been made. The binding operations issue a
//! call only when the cache says the object is not bound already; every plan
//! keeps the cache equal to the context's bindings (`keeps_track`), and
//! changes GL's texture filters only for the texture whose filter mode it
//! sets (`sets_filters`).
use vstd::prelude::*;
use crate::gl::{
    apply, binds_nothing, keeps_track, leaves_filters, lemma_keeps_track_compose,
    lemma_keeps_track_neutral, lemma_keeps_track_single, lemma_run_append, lemma_run_single,
    lemma_run_two, lemma_sets_filters_compose, lemma_sets_filters_neutral, lemma_sets_filters_single,
    run, sets_filters, with_filter, GlBindings, GlCommand, GlModel, ARRAY_BUFFER, BLEND,
    COLOR_ATTACHMENT0, CULL_FACE, ELEMENT_ARRAY_BUFFER, FLOAT, FRAMEBUFFER, ONE,
    ONE_MINUS_SRC_ALPHA, REPEAT, RGBA, SRC_ALPHA, TEXTURE0, TEXTURE_2D, TEXTURE_BASE_LEVEL,
    TEXTURE_MAG_FILTER, TEXTURE_MAX_LEVEL, TEXTURE_MIN_FILTER, TEXTURE_WRAP_S, TEXTURE_WRAP_T,
    TRIANGLES, UNSIGNED_BYTE, UNSIGNED_INT,
};
use crate::handles::{GLFramebuffer, GLIndexBuffer, GLProgram, GLTexture, GLVertexBuffer};
use crate::types::{
    filter_value, front_face_value, usage_value, BufferUsage, FilterMode, FrontFace, TetraError,
};

verus! {

/// What the device knows: the bindings it believes the context has, and the
/// filter mode that new textures get.
pub struct DeviceView {
    pub bindings: GlBindings,
    pub default_filter_mode: FilterMode,
}

impl DeviceView {
    pub open spec fn with_bindings(self, b: GlBindings) -> DeviceView {
        DeviceView { bindings: b, default_filter_mode: self.default_filter_mode }
    }
}

/// The calls that bind an object when the cache holds `current` and `wanted`
/// is asked for: none if they agree, `cmds` otherwise.
pub open spec fn bind_plan(current: Option<u32>, wanted: Option<u32>, cmds: Seq<GlCommand>) -> Seq<
    GlCommand,
> {
    if current == wanted {
        Seq::empty()
    } else {
        cmds
    }
}

/// The calls that bind `buffer` as the array buffer.
pub open spec fn vertex_buffer_bind(b: GlBindings, buffer: Option<u32>) -> Seq<GlCommand> {
    bind_plan(b.array_buffer, buffer, seq![GlCommand::BindBuffer { target: ARRAY_BUFFER, buffer }])
}

/// The calls that bind `buffer` as the element array buffer.
pub open spec fn index_buffer_bind(b: GlBindings, buffer: Option<u32>) -> Seq<GlCommand> {
    bind_plan(
        b.element_array_buffer,
        buffer,
        seq![GlCommand::BindBuffer { target: ELEMENT_ARRAY_BUFFER, buffer }],
    )
}

/// The calls that make `program` current.
pub open spec fn program_bind(b: GlBindings, program: Option<u32>) -> Seq<GlCommand> {
    bind_plan(b.program, program, seq![GlCommand::UseProgram(program)])
}

/// The calls that bind `texture` to unit 0.
pub open spec fn texture_bind(b: GlBindings, texture: Option<u32>) -> Seq<GlCommand> {
    bind_plan(b.texture, texture, texture_bind_calls(texture))
}

/// The calls that bind `framebuffer`.
pub open spec fn framebuffer_bind(b: GlBindings, framebuffer: Option<u32>) -> Seq<GlCommand> {
    bind_plan(
        b.framebuffer,
        framebuffer,
        seq![GlCommand::BindFramebuffer { target: FRAMEBUFFER, framebuffer }],
    )
}

/// The calls that bind texture `t` to unit 0's 2D target.
pub open spec fn texture_bind_calls(t: Option<u32>) -> Seq<GlCommand> {
    seq![GlCommand::ActiveTexture(TEXTURE0), GlCommand::BindTexture { target: TEXTURE_2D, texture: t }]
}

/// The calls that set up a new texture once it is bound: repeat wrapping,
/// the filter in both directions, a single mip level, and storage for
/// `width` by `height` RGBA pixels with no data.
pub open spec fn texture_setup_calls(width: i32, height: i32, filter: FilterMode) -> Seq<GlCommand> {
    seq![
        GlCommand::TexParameterI32 { target: TEXTURE_2D, parameter: TEXTURE_WRAP_S, value: REPEAT as i32 },
        GlCommand::TexParameterI32 { target: TEXTURE_2D, parameter: TEXTURE_WRAP_T, value: REPEAT as i32 },
        GlCommand::TexParameterI32 { target: TEXTURE_2D, parameter: TEXTURE_MIN_FILTER, value: filter_value(filter) },
        GlCommand::TexParameterI32 { target: TEXTURE_2D, parameter: TEXTURE_MAG_FILTER, value: filter_value(filter) },
        GlCommand::TexParameterI32 { target: TEXTURE_2D, parameter: TEXTURE_BASE_LEVEL, value: 0 },
        GlCommand::TexParameterI32 { target: TEXTURE_2D, parameter: TEXTURE_MAX_LEVEL, value: 0 },
        GlCommand::TexImage2D {
            target: TEXTURE_2D,
            level: 0,
            internal_format: RGBA as i32,
            width,
            height,
            border: 0,
            format: RGBA,
            ty: UNSIGNED_BYTE,
        },
    ]
}

/// The calls that set a texture's filter in both directions.
pub open spec fn filter_calls(filter: FilterMode) -> Seq<GlCommand> {
    seq![
        GlCommand::TexParameterI32 { target: TEXTURE_2D, parameter: TEXTURE_MIN_FILTER, value: filter_value(filter) },
        GlCommand::TexParameterI32 { target: TEXTURE_2D, parameter: TEXTURE_MAG_FILTER, value: filter_value(filter) },
    ]
}

/// The product `width * height * 4` fits in an `i32`, as the texture size
/// check computes it.
pub open spec fn texture_size_computable(width: i32, height: i32) -> bool {
    &&& i32::MIN <= width * height <= i32::MAX
    &&& i32::MIN <= width * height * 4 <= i32::MAX
}

/// How many bytes of data a `width` by `height` RGBA texture needs, as the
/// size check counts them (a negative product wraps around).
pub open spec fn texture_bytes_needed(width: i32, height: i32) -> usize {
    (width * height * 4) as usize
}

/// Every command of `cmds` binds and deletes nothing.
pub open spec fn all_bind_nothing(cmds: Seq<GlCommand>) -> bool {
    forall|i: int| 0 <= i < cmds.len() ==> binds_nothing(#[trigger] cmds[i])
}

/// Every command of `cmds` changes no texture filter.
pub open spec fn all_leave_filters(cmds: Seq<GlCommand>) -> bool {
    forall|i: int| 0 <= i < cmds.len() ==> leaves_filters(#[trigger] cmds[i])
}

/// A plan that keeps track and changes the filters by `change`, followed by
/// calls that bind nothing and change no filter, does the same.
proof fn lemma_then_neutral(
    before: GlBindings,
    plan: Seq<GlCommand>,
    after: GlBindings,
    tail: Seq<GlCommand>,
    change: Option<(u32, i32)>,
)
    requires
        keeps_track(before, plan, after),
        sets_filters(before, plan, change),
        all_bind_nothing(tail),
        all_leave_filters(tail),
    ensures
        keeps_track(before, plan + tail, after),
        sets_filters(before, plan + tail, change),
{
    lemma_keeps_track_neutral(after, tail);
    lemma_keeps_track_compose(before, plan, after, tail, after);
    assert forall|i: int| 0 <= i < tail.len() implies binds_nothing(#[trigger] tail[i])
        && leaves_filters(tail[i]) by {}
    lemma_sets_filters_neutral(after, tail);
    lemma_sets_filters_compose(before, plan, after, tail, change, None);
}

/// Calls that bind nothing and change no filter, on their own.
proof fn lemma_neutral_plan(b: GlBindings, cmds: Seq<GlCommand>)
    requires
        all_bind_nothing(cmds),
        all_leave_filters(cmds),
    ensures
        keeps_track(b, cmds, b),
        sets_filters(b, cmds, None),
{
    lemma_keeps_track_neutral(b, cmds);
    assert forall|i: int| 0 <= i < cmds.len() implies binds_nothing(#[trigger] cmds[i])
        && leaves_filters(cmds[i]) by {}
    lemma_sets_filters_neutral(b, cmds);
}

/// The calls that create a texture once it exists: it is bound, then set
/// up as `texture_setup_calls` says.
pub open spec fn texture_creation_plan(
    b: GlBindings,
    id: u32,
    width: i32,
    height: i32,
    filter: FilterMode,
) -> Seq<GlCommand> {
    texture_bind(b, Some(id)) + texture_setup_calls(width, height, filter)
}

/// `c` writes `pixels` into the `width` by `height` region at (`x`, `y`) of
/// the bound 2D texture, as RGBA bytes.
pub open spec fn writes_pixels(c: GlCommand, x: i32, y: i32, width: i32, height: i32, pixels: Seq<u8>) -> bool {
    match c {
        GlCommand::TexSubImage2D {
            target,
            level,
            x_offset,
            y_offset,
            width: w,
            height: h,
            format,
            ty,
            pixels: p,
        } => {
            &&& target == TEXTURE_2D
            &&& level == 0
            &&& x_offset == x
            &&& y_offset == y
            &&& w == width
            &&& h == height
            &&& format == RGBA
            &&& ty == UNSIGNED_BYTE
            &&& p@ == pixels
        },
        _ => false,
    }
}

/// `cmds` writes `pixels` into a region of texture `id`: the texture is
/// bound, then one call writes the region.
pub open spec fn is_upload_plan(
    cmds: Seq<GlCommand>,
    b: GlBindings,
    id: u32,
    x: i32,
    y: i32,
    width: i32,
    height: i32,
    pixels: Seq<u8>,
) -> bool {
    &&& cmds.len() == texture_bind(b, Some(id)).len() + 1
    &&& cmds.drop_last() == texture_bind(b, Some(id))
    &&& writes_pixels(cmds.last(), x, y, width, height, pixels)
}

/// The calls that set texture `id`'s filter: it is bound, then both filters
/// are set.
pub open spec fn texture_filter_plan(b: GlBindings, id: u32, filter: FilterMode) -> Seq<GlCommand> {
    texture_bind(b, Some(id)) + filter_calls(filter)
}

/// GL's filters for texture `t` are those of `mode`, in both directions.
pub open spec fn filters_agree(m: GlModel, t: u32, mode: FilterMode) -> bool {
    &&& m.min_filter.contains_key(t)
    &&& m.min_filter[t] == filter_value(mode)
    &&& m.mag_filter.contains_key(t)
    &&& m.mag_filter[t] == filter_value(mode)
}

/// With texture `t` bound, the two filter calls set its filters and no
/// other texture's.
proof fn lemma_filter_calls(b: GlBindings, t: u32, filter: FilterMode)
    requires
        b.texture == Some(t),
    ensures
        keeps_track(b, filter_calls(filter), b),
        sets_filters(b, filter_calls(filter), Some((t, filter_value(filter)))),
{
    let calls = filter_calls(filter);
    assert(all_bind_nothing(calls));
    lemma_keeps_track_neutral(b, calls);
    let c0 = calls[0];
    let c1 = calls[1];
    assert(calls =~= seq![c0, c1]);
    assert forall|m: GlModel| m.bindings == b && m.active_texture == TEXTURE0 implies {
        &&& (#[trigger] run(m, calls)).active_texture == TEXTURE0
        &&& run(m, calls).min_filter == with_filter(m.min_filter, Some((t, filter_value(filter))))
        &&& run(m, calls).mag_filter == with_filter(m.mag_filter, Some((t, filter_value(filter))))
    } by {
        lemma_run_two(m, c0, c1);
    }
}

/// With texture `t` bound, the setup calls keep the bindings and set its
/// filters and no other texture's.
proof fn lemma_texture_setup(b: GlBindings, t: u32, width: i32, height: i32, filter: FilterMode)
    requires
        b.texture == Some(t),
    ensures
        keeps_track(b, texture_setup_calls(width, height, filter), b),
        sets_filters(b, texture_setup_calls(width, height, filter), Some((t, filter_value(filter)))),
{
    let setup = texture_setup_calls(width, height, filter);
    let p1 = setup.take(2);
    let p2 = filter_calls(filter);
    let p3 = setup.skip(4);
    assert(setup =~= p1 + p2 + p3);
    assert(all_bind_nothing(p1) && all_leave_filters(p1));
    assert(all_bind_nothing(p3) && all_leave_filters(p3));
    lemma_neutral_plan(b, p1);
    lemma_filter_calls(b, t, filter);
    lemma_keeps_track_compose(b, p1, b, p2, b);
    lemma_sets_filters_compose(b, p1, b, p2, None, Some((t, filter_value(filter))));
    lemma_then_neutral(b, p1 + p2, b, p3, Some((t, filter_value(filter))));
}

/// A texture's creation binds it and gives it `filter`, and no other
/// texture's filters change.
proof fn lemma_texture_creation(b: GlBindings, id: u32, width: i32, height: i32, filter: FilterMode)
    ensures
        keeps_track(b, texture_creation_plan(b, id, width, height, filter), b.with_texture(Some(id))),
        sets_filters(
            b,
            texture_creation_plan(b, id, width, height, filter),
            Some((id, filter_value(filter))),
        ),
{
    let bound = b.with_texture(Some(id));
    lemma_texture_bind(b, Some(id));
    lemma_texture_setup(bound, id, width, height, filter);
    lemma_keeps_track_compose(
        b,
        texture_bind(b, Some(id)),
        bound,
        texture_setup_calls(width, height, filter),
        bound,
    );
    lemma_sets_filters_compose(
        b,
        texture_bind(b, Some(id)),
        bound,
        texture_setup_calls(width, height, filter),
        None,
        Some((id, filter_value(filter))),
    );
}

/// Writing a texture's pixels binds it and changes no filter.
proof fn lemma_texture_upload(
    cmds: Seq<GlCommand>,
    b: GlBindings,
    id: u32,
    x: i32,
    y: i32,
    width: i32,
    height: i32,
    pixels: Seq<u8>,
)
    requires
        is_upload_plan(cmds, b, id, x, y, width, height, pixels),
    ensures
        keeps_track(b, cmds, b.with_texture(Some(id))),
        sets_filters(b, cmds, None),
{
    let tail = seq![cmds.last()];
    assert(cmds =~= cmds.drop_last() + tail);
    lemma_texture_bind(b, Some(id));
    assert(all_bind_nothing(tail) && all_leave_filters(tail));
    lemma_then_neutral(b, texture_bind(b, Some(id)), b.with_texture(Some(id)), tail, None);
}

/// Setting a texture's filter binds it and sets its filters and no other
/// texture's.
proof fn lemma_texture_filter(b: GlBindings, id: u32, filter: FilterMode)
    ensures
        keeps_track(b, texture_filter_plan(b, id, filter), b.with_texture(Some(id))),
        sets_filters(b, texture_filter_plan(b, id, filter), Some((id, filter_value(filter)))),
{
    let bound = b.with_texture(Some(id));
    lemma_texture_bind(b, Some(id));
    lemma_filter_calls(bound, id, filter);
    lemma_keeps_track_compose(b, texture_bind(b, Some(id)), bound, filter_calls(filter), bound);
    lemma_sets_filters_compose(
        b,
        texture_bind(b, Some(id)),
        bound,
        filter_calls(filter),
        None,
        Some((id, filter_value(filter))),
    );
}

/// Law: a new texture's filters in GL are those of the filter mode it is
/// created with, and every other texture whose filters agreed with its mode
/// still agrees.
pub proof fn lemma_new_texture_filters_agree(
    m: GlModel,
    id: u32,
    width: i32,
    height: i32,
    filter: FilterMode,
    other: u32,
    other_mode: FilterMode,
)
    requires
        m.active_texture == TEXTURE0,
        other != id,
        filters_agree(m, other, other_mode),
    ensures
        filters_agree(run(m, texture_creation_plan(m.bindings, id, width, height, filter)), id, filter),
        filters_agree(
            run(m, texture_creation_plan(m.bindings, id, width, height, filter)),
            other,
            other_mode,
        ),
{
    lemma_texture_creation(m.bindings, id, width, height, filter);
    let r = run(m, texture_creation_plan(m.bindings, id, width, height, filter));
    assert(r.min_filter == m.min_filter.insert(id, filter_value(filter)));
    assert(r.mag_filter == m.mag_filter.insert(id, filter_value(filter)));
}

/// Law: after a texture's filter mode is set, GL's filters for it are those
/// of the new mode, and every other texture whose filters agreed with its
/// mode still agrees.
pub proof fn lemma_filter_mode_agrees(
    m: GlModel,
    id: u32,
    filter: FilterMode,
    other: u32,
    other_mode: FilterMode,
)
    requires
        m.active_texture == TEXTURE0,
        other != id,
        filters_agree(m, other, other_mode),
    ensures
        filters_agree(run(m, texture_filter_plan(m.bindings, id, filter)), id, filter),
        filters_agree(run(m, texture_filter_plan(m.bindings, id, filter)), other, other_mode),
{
    lemma_texture_filter(m.bindings, id, filter);
    let r = run(m, texture_filter_plan(m.bindings, id, filter));
    assert(r.min_filter == m.min_filter.insert(id, filter_value(filter)));
    assert(r.mag_filter == m.mag_filter.insert(id, filter_value(filter)));
}

/// Law: a plan that changes no filter keeps every texture's agreement with
/// its mode, and keeps unit 0 active.
pub proof fn lemma_other_plans_keep_agreement(
    m: GlModel,
    cmds: Seq<GlCommand>,
    t: u32,
    mode: FilterMode,
)
    requires
        m.active_texture == TEXTURE0,
        sets_filters(m.bindings, cmds, None),
        filters_agree(m, t, mode),
    ensures
        filters_agree(run(m, cmds), t, mode),
        run(m, cmds).active_texture == TEXTURE0,
{
    assert(run(m, cmds).min_filter == m.min_filter);
}

/// The bindings after a draw with these objects.
pub open spec fn draw_bindings(
    b: GlBindings,
    vertex_buffer: u32,
    index_buffer: u32,
    texture: u32,
    program: u32,
) -> GlBindings {
    b.with_array_buffer(Some(vertex_buffer)).with_element_array_buffer(Some(index_buffer)).with_texture(
        Some(texture),
    ).with_program(Some(program))
}

/// The calls of a draw of `count` indices as triangles from a device whose
/// cache holds `b`: the vertex buffer, index buffer, texture and program are
/// bound where they are not already, then the draw call.
pub open spec fn draw_plan(
    b: GlBindings,
    vertex_buffer: u32,
    index_buffer: u32,
    texture: u32,
    program: u32,
    count: i32,
) -> Seq<GlCommand> {
    vertex_buffer_bind(b, Some(vertex_buffer)) + index_buffer_bind(b, Some(index_buffer))
        + texture_bind(b, Some(texture)) + program_bind(b, Some(program)) + seq![
        GlCommand::DrawElements { mode: TRIANGLES, count, element_type: UNSIGNED_INT, offset: 0 },
    ]
}

/// Two calls applied in order.
spec fn run_two(m: GlModel, c0: GlCommand, c1: GlCommand) -> GlModel {
    apply(apply(m, c0), c1)
}

proof fn lemma_two_calls(before: GlBindings, c0: GlCommand, c1: GlCommand, after: GlBindings)
    requires
        forall|m: GlModel| m.bindings == before ==> (#[trigger] run_two(m, c0, c1)).bindings
            == after,
    ensures
        keeps_track(before, seq![c0] + seq![c1], after),
{
    assert forall|m: GlModel| m.bindings == before implies (#[trigger] run(
        m,
        seq![c0] + seq![c1],
    )).bindings == after by {
        lemma_run_append(m, seq![c0], seq![c1]);
        lemma_run_single(m, c0);
        lemma_run_single(apply(m, c0), c1);
        assert(run_two(m, c0, c1).bindings == after);
    }
}

proof fn lemma_vertex_buffer_bind(b: GlBindings, buffer: Option<u32>)
    ensures
        keeps_track(b, vertex_buffer_bind(b, buffer), b.with_array_buffer(buffer)),
        sets_filters(b, vertex_buffer_bind(b, buffer), None),
{
    if b.array_buffer != buffer {
        lemma_sets_filters_single(b, GlCommand::BindBuffer { target: ARRAY_BUFFER, buffer }, None);
        lemma_keeps_track_single(
            b,
            GlCommand::BindBuffer { target: ARRAY_BUFFER, buffer },
            b.with_array_buffer(buffer),
        );
    } else {
        lemma_sets_filters_neutral(b, Seq::empty());
        assert(b.with_array_buffer(buffer) == b);
    }
}

proof fn lemma_index_buffer_bind(b: GlBindings, buffer: Option<u32>)
    ensures
        keeps_track(b, index_buffer_bind(b, buffer), b.with_element_array_buffer(buffer)),
        sets_filters(b, index_buffer_bind(b, buffer), None),
{
    if b.element_array_buffer != buffer {
        lemma_sets_filters_single(b, GlCommand::BindBuffer { target: ELEMENT_ARRAY_BUFFER, buffer }, None);
        lemma_keeps_track_single(
            b,
            GlCommand::BindBuffer { target: ELEMENT_ARRAY_BUFFER, buffer },
            b.with_element_array_buffer(buffer),
        );
    } else {
        lemma_sets_filters_neutral(b, Seq::empty());
        assert(b.with_element_array_buffer(buffer) == b);
    }
}

proof fn lemma_program_bind(b: GlBindings, program: Option<u32>)
    ensures
        keeps_track(b, program_bind(b, program), b.with_program(program)),
        sets_filters(b, program_bind(b, program), None),
{
    if b.program != program {
        lemma_sets_filters_single(b, GlCommand::UseProgram(program), None);
        lemma_keeps_track_single(b, GlCommand::UseProgram(program), b.with_program(program));
    } else {
        lemma_sets_filters_neutral(b, Seq::empty());
        assert(b.with_program(program) == b);
    }
}

proof fn lemma_texture_bind(b: GlBindings, texture: Option<u32>)
    ensures
        keeps_track(b, texture_bind(b, texture), b.with_texture(texture)),
        sets_filters(b, texture_bind(b, texture), None),
{
    if b.texture != texture {
        let c0 = GlCommand::ActiveTexture(TEXTURE0);
        let c1 = GlCommand::BindTexture { target: TEXTURE_2D, texture };
        assert forall|m: GlModel| m.bindings == b implies (#[trigger] run_two(
            m,
            c0,
            c1,
        )).bindings == b.with_texture(texture) by {}
        lemma_two_calls(b, c0, c1, b.with_texture(texture));
        assert(texture_bind_calls(texture) =~= seq![c0] + seq![c1]);
        assert forall|m: GlModel| m.bindings == b && m.active_texture == TEXTURE0 implies {
            &&& (#[trigger] run(m, texture_bind(b, texture))).active_texture == TEXTURE0
            &&& run(m, texture_bind(b, texture)).min_filter == with_filter(m.min_filter, None)
            &&& run(m, texture_bind(b, texture)).mag_filter == with_filter(m.mag_filter, None)
        } by {
            lemma_run_two(m, c0, c1);
            assert(texture_bind_calls(texture) =~= seq![c0, c1]);
        }
    } else {
        assert(b.with_texture(texture) == b);
        lemma_sets_filters_neutral(b, Seq::empty());
    }
}

proof fn lemma_framebuffer_bind(b: GlBindings, framebuffer: Option<u32>)
    ensures
        keeps_track(b, framebuffer_bind(b, framebuffer), b.with_framebuffer(framebuffer)),
        sets_filters(b, framebuffer_bind(b, framebuffer), None),
{
    if b.framebuffer != framebuffer {
        lemma_sets_filters_single(b, GlCommand::BindFramebuffer { target: FRAMEBUFFER, framebuffer }, None);
        lemma_keeps_track_single(
            b,
            GlCommand::BindFramebuffer { target: FRAMEBUFFER, framebuffer },
            b.with_framebuffer(framebuffer),
        );
    } else {
        lemma_sets_filters_neutral(b, Seq::empty());
        assert(b.with_framebuffer(framebuffer) == b);
    }
}

/// Law: a new texture's storage is `width` pixels wide and `height` pixels
/// high, in RGBA bytes with no data; that allocation is its plan's last call.
pub proof fn lemma_texture_storage_has_requested_size(
    b: GlBindings,
    id: u32,
    width: i32,
    height: i32,
    filter: FilterMode,
)
    ensures
        texture_creation_plan(b, id, width, height, filter).last() == (GlCommand::TexImage2D {
            target: TEXTURE_2D,
            level: 0,
            internal_format: RGBA as i32,
            width: width,
            height: height,
            border: 0,
            format: RGBA,
            ty: UNSIGNED_BYTE,
        }),
{
}

/// Law: a new texture repeats in both directions and has a single mip
/// level: its plan sets `TEXTURE_WRAP_S` and `TEXTURE_WRAP_T` to `REPEAT`
/// and both `TEXTURE_BASE_LEVEL` and `TEXTURE_MAX_LEVEL` to 0 on the 2D
/// target, after the texture is bound on unit 0.
pub proof fn lemma_new_texture_repeats_with_one_level(
    b: GlBindings,
    id: u32,
    width: i32,
    height: i32,
    filter: FilterMode,
)
    ensures
        ({
            let plan = texture_creation_plan(b, id, width, height, filter);
            let after_bind = texture_bind(b, Some(id)).len() as int;
            &&& exists|i: int|
                after_bind <= i < plan.len() && plan[i] == (GlCommand::TexParameterI32 {
                    target: TEXTURE_2D,
                    parameter: TEXTURE_WRAP_S,
                    value: REPEAT as i32,
                })
            &&& exists|i: int|
                after_bind <= i < plan.len() && plan[i] == (GlCommand::TexParameterI32 {
                    target: TEXTURE_2D,
                    parameter: TEXTURE_WRAP_T,
                    value: REPEAT as i32,
                })
            &&& exists|i: int|
                after_bind <= i < plan.len() && plan[i] == (GlCommand::TexParameterI32 {
                    target: TEXTURE_2D,
                    parameter: TEXTURE_BASE_LEVEL,
                    value: 0,
                })
            &&& exists|i: int|
                after_bind <= i < plan.len() && plan[i] == (GlCommand::TexParameterI32 {
                    target: TEXTURE_2D,
                    parameter: TEXTURE_MAX_LEVEL,
                    value: 0,
                })
        }),
{
    let plan = texture_creation_plan(b, id, width, height, filter);
    let k = texture_bind(b, Some(id)).len() as int;
    assert(plan[k] == texture_setup_calls(width, height, filter)[0]);
    assert(plan[k + 1] == texture_setup_calls(width, height, filter)[1]);
    assert(plan[k + 4] == texture_setup_calls(width, height, filter)[4]);
    assert(plan[k + 5] == texture_setup_calls(width, height, filter)[5]);
}

/// Law: the data a texture needs is 4 bytes per pixel: the byte count the
/// size check asks for is `width * height * 4` (taken as a `usize`), and for
/// a texture of non-negative size it is exactly four times its pixel count.
pub proof fn lemma_texture_needs_four_bytes_per_pixel(width: i32, height: i32)
    requires
        texture_size_computable(width, height),
    ensures
        texture_bytes_needed(width, height) == (width * height * 4) as usize,
        width >= 0 && height >= 0 ==> texture_bytes_needed(width, height) as int == 4 * (width
            * height),
{
    if width >= 0 && height >= 0 {
        assert(width * height >= 0) by (nonlinear_arith)
            requires
                width >= 0,
                height >= 0,
        ;
    }
}

/// Law: an upload writes exactly the given pixels at the given offsets: its
/// last call writes the `width` by `height` region whose corner is at
/// (`x`, `y`) of the bound 2D texture, as RGBA bytes, and the calls before it
/// leave texture `id` bound on unit 0.
pub proof fn lemma_upload_writes_at_its_offsets(
    cmds: Seq<GlCommand>,
    b: GlBindings,
    id: u32,
    x: i32,
    y: i32,
    width: i32,
    height: i32,
    pixels: Seq<u8>,
)
    requires
        is_upload_plan(cmds, b, id, x, y, width, height, pixels),
    ensures
        cmds.last() is TexSubImage2D,
        cmds.last()->TexSubImage2D_target == TEXTURE_2D,
        cmds.last()->TexSubImage2D_level == 0,
        cmds.last()->x_offset == x,
        cmds.last()->y_offset == y,
        cmds.last()->TexSubImage2D_width == width,
        cmds.last()->TexSubImage2D_height == height,
        cmds.last()->TexSubImage2D_format == RGBA,
        cmds.last()->TexSubImage2D_ty == UNSIGNED_BYTE,
        cmds.last()->pixels@ == pixels,
        forall|m: GlModel|
            m.bindings == b ==> (#[trigger] run(m, cmds.drop_last())).bindings.texture == Some(id),
{
    lemma_texture_bind(b, Some(id));
}

/// Law: a draw is made with the objects it was asked for bound: on any
/// context whose bindings the cache holds, the calls before the draw call
/// leave exactly those objects bound, and the last call is the draw.
pub proof fn lemma_draw_binds_its_objects(
    b: GlBindings,
    vertex_buffer: u32,
    index_buffer: u32,
    texture: u32,
    program: u32,
    count: i32,
)
    ensures
        keeps_track(
            b,
            draw_plan(b, vertex_buffer, index_buffer, texture, program, count).drop_last(),
            draw_bindings(b, vertex_buffer, index_buffer, texture, program),
        ),
        draw_plan(b, vertex_buffer, index_buffer, texture, program, count).last() == (
        GlCommand::DrawElements { mode: TRIANGLES, count, element_type: UNSIGNED_INT, offset: 0 }),
        draw_bindings(b, vertex_buffer, index_buffer, texture, program) == (GlBindings {
            array_buffer: Some(vertex_buffer),
            element_array_buffer: Some(index_buffer),
            program: Some(program),
            texture: Some(texture),
            framebuffer: b.framebuffer,
            vertex_array: b.vertex_array,
        }),
        forall|m: GlModel|
            m.bindings == b ==> {
                let bound = #[trigger] run(
                    m,
                    draw_plan(b, vertex_buffer, index_buffer, texture, program, count).drop_last(),
                ).bindings;
                &&& bound.array_buffer == Some(vertex_buffer)
                &&& bound.element_array_buffer == Some(index_buffer)
                &&& bound.texture == Some(texture)
                &&& bound.program == Some(program)
            },
{
    let b1 = b.with_array_buffer(Some(vertex_buffer));
    let b2 = b1.with_element_array_buffer(Some(index_buffer));
    let b3 = b2.with_texture(Some(texture));
    let b4 = b3.with_program(Some(program));
    let p1 = vertex_buffer_bind(b, Some(vertex_buffer));
    let p2 = index_buffer_bind(b, Some(index_buffer));
    let p3 = texture_bind(b, Some(texture));
    let p4 = program_bind(b, Some(program));
    lemma_vertex_buffer_bind(b, Some(vertex_buffer));
    lemma_index_buffer_bind(b1, Some(index_buffer));
    lemma_texture_bind(b2, Some(texture));
    lemma_program_bind(b3, Some(program));
    assert(index_buffer_bind(b1, Some(index_buffer)) == p2);
    assert(texture_bind(b2, Some(texture)) == p3);
    assert(program_bind(b3, Some(program)) == p4);
    lemma_keeps_track_compose(b, p1, b1, p2, b2);
    lemma_keeps_track_compose(b, p1 + p2, b2, p3, b3);
    lemma_keeps_track_compose(b, p1 + p2 + p3, b3, p4, b4);
    let plan = draw_plan(b, vertex_buffer, index_buffer, texture, program, count);
    assert(plan.drop_last() =~= p1 + p2 + p3 + p4);
}

/// Law: drawing again with the same objects binds nothing: the second draw
/// is the draw call alone.
pub proof fn lemma_repeated_draw_only_draws(
    b: GlBindings,
    vertex_buffer: u32,
    index_buffer: u32,
    texture: u32,
    program: u32,
    count: i32,
)
    ensures
        draw_plan(
            draw_bindings(b, vertex_buffer, index_buffer, texture, program),
            vertex_buffer,
            index_buffer,
            texture,
            program,
            count,
        ) == seq![
            GlCommand::DrawElements { mode: TRIANGLES, count, element_type: UNSIGNED_INT, offset: 0 },
        ],
{
    let after = draw_bindings(b, vertex_buffer, index_buffer, texture, program);
    assert(draw_plan(after, vertex_buffer, index_buffer, texture, program, count) =~= seq![
        GlCommand::DrawElements { mode: TRIANGLES, count, element_type: UNSIGNED_INT, offset: 0 },
    ]);
}

/// A copy of `data`.
fn copy_bytes(data: &[u8]) -> (v: Vec<u8>)
    ensures
        v@ == data@,
{
    let mut v: Vec<u8> = Vec::new();
    let mut i: usize = 0;
    while i < data.len()
        invariant
            i <= data@.len(),
            v@ == data@.take(i as int),
        decreases data@.len() - i,
    {
        v.push(data[i]);
        i = i + 1;
        proof {
            assert(data@.take(i as int) =~= data@.take(i - 1).push(data@[i - 1]));
        }
    }
    proof {
        assert(data@.take(data@.len() as int) =~= data@);
    }
    v
}

/// A device that talks to one GL context.
pub struct GLDevice {
    bound: GlBindings,
    default_filter_mode: FilterMode,
}

impl View for GLDevice {
    type V = DeviceView;

    closed spec fn view(&self) -> DeviceView {
        DeviceView { bindings: self.bound, default_filter_mode: self.default_filter_mode }
    }
}

impl GLDevice {
    /// The calls that prepare a fresh context, made before the device's
    /// vertex array is created: back faces are culled, and blending is on
    /// with source alpha over the destination (alpha summed the same way
    /// with a source factor of one).
    pub fn startup_commands() -> (cmds: Vec<GlCommand>)
        ensures
            cmds@ == seq![
                GlCommand::Enable(CULL_FACE),
                GlCommand::Enable(BLEND),
                GlCommand::BlendFuncSeparate {
                    src_rgb: SRC_ALPHA,
                    dst_rgb: ONE_MINUS_SRC_ALPHA,
                    src_alpha: ONE,
                    dst_alpha: ONE_MINUS_SRC_ALPHA,
                },
            ],
            forall|b: GlBindings| keeps_track(b, cmds@, b) && sets_filters(b, cmds@, None),
    {
        let mut cmds: Vec<GlCommand> = Vec::new();
        cmds.push(GlCommand::Enable(CULL_FACE));
        cmds.push(GlCommand::Enable(BLEND));
        cmds.push(
            GlCommand::BlendFuncSeparate {
                src_rgb: SRC_ALPHA,
                dst_rgb: ONE_MINUS_SRC_ALPHA,
                src_alpha: ONE,
                dst_alpha: ONE_MINUS_SRC_ALPHA,
            },
        );
        proof {
            assert forall|b: GlBindings| keeps_track(b, cmds@, b) && sets_filters(b, cmds@, None) by {
                assert(all_bind_nothing(cmds@) && all_leave_filters(cmds@));
                lemma_neutral_plan(b, cmds@);
            }
        }
        cmds
    }

    /// A device for a context on which nothing is bound, given the vertex
    /// array that was created for it; the call binds that vertex array.
    /// New textures are sampled with the nearest filter.
    pub fn new(vertex_array: u32) -> (r: (GLDevice, Vec<GlCommand>))
        ensures
            r.0@ == (DeviceView {
                bindings: GlBindings::empty().with_vertex_array(Some(vertex_array)),
                default_filter_mode: FilterMode::Nearest,
            }),
            r.1@ == seq![GlCommand::BindVertexArray(Some(vertex_array))],
            keeps_track(GlBindings::empty(), r.1@, r.0@.bindings),
            sets_filters(GlBindings::empty(), r.1@, None),
    {
        let device = GLDevice {
            bound: GlBindings {
                array_buffer: None,
                element_array_buffer: None,
                program: None,
                texture: None,
                framebuffer: None,
                vertex_array: Some(vertex_array),
            },
            default_filter_mode: FilterMode::Nearest,
        };
        let mut cmds: Vec<GlCommand> = Vec::new();
        cmds.push(GlCommand::BindVertexArray(Some(vertex_array)));
        proof {
            lemma_keeps_track_single(
                GlBindings::empty(),
                GlCommand::BindVertexArray(Some(vertex_array)),
                device@.bindings,
            );
            lemma_sets_filters_single(
                GlBindings::empty(),
                GlCommand::BindVertexArray(Some(vertex_array)),
                None,
            );
            assert(cmds@ =~= seq![GlCommand::BindVertexArray(Some(vertex_array))]);
        }
        (device, cmds)
    }

    /// The calls that release the device's objects when it is dropped: the
    /// vertex array is unbound, and deleted if the device has one.
    pub fn drop_commands(&self) -> (cmds: Vec<GlCommand>)
        ensures
            cmds@ == seq![GlCommand::BindVertexArray(None)] + match self@.bindings.vertex_array {
                Some(va) => seq![GlCommand::DeleteVertexArray(va)],
                None => Seq::empty(),
            },
            keeps_track(self@.bindings, cmds@, self@.bindings.with_vertex_array(None)),
            sets_filters(self@.bindings, cmds@, None),
    {
        let mut cmds: Vec<GlCommand> = Vec::new();
        cmds.push(GlCommand::BindVertexArray(None));
        let ghost first = cmds@;
        let ghost unbound = self@.bindings.with_vertex_array(None);
        proof {
            lemma_keeps_track_single(self@.bindings, GlCommand::BindVertexArray(None), unbound);
            lemma_sets_filters_single(self@.bindings, GlCommand::BindVertexArray(None), None);
            assert(first =~= seq![GlCommand::BindVertexArray(None)]);
        }
        match self.bound.vertex_array {
            Some(va) => {
                cmds.push(GlCommand::DeleteVertexArray(va));
                proof {
                    lemma_keeps_track_single(unbound, GlCommand::DeleteVertexArray(va), unbound);
                    lemma_keeps_track_compose(
                        self@.bindings,
                        first,
                        unbound,
                        seq![GlCommand::DeleteVertexArray(va)],
                        unbound,
                    );
                    lemma_sets_filters_single(unbound, GlCommand::DeleteVertexArray(va), None);
                    lemma_sets_filters_compose(
                        self@.bindings,
                        first,
                        unbound,
                        seq![GlCommand::DeleteVertexArray(va)],
                        None,
                        None,
                    );
                    assert(cmds@ =~= first + seq![GlCommand::DeleteVertexArray(va)]);
                }
            },
            None => {
                proof {
                    assert(cmds@ =~= first + Seq::<GlCommand>::empty());
                }
            },
        }
        cmds
    }

    /// The filter mode that new textures get.
    pub fn get_default_filter_mode(&self) -> (r: FilterMode)
        ensures
            r == self@.default_filter_mode,
    {
        self.default_filter_mode
    }

    /// Sets the filter mode that new textures get.
    pub fn set_default_filter_mode(&mut self, filter_mode: FilterMode)
        ensures
            final(self)@ == (DeviceView {
                bindings: old(self)@.bindings,
                default_filter_mode: filter_mode,
            }),
    {
        self.default_filter_mode = filter_mode;
    }

    /// The call that sets which winding order faces the viewer.
    pub fn front_face(&self, front_face: FrontFace) -> (cmds: Vec<GlCommand>)
        ensures
            cmds@ == seq![GlCommand::FrontFace(front_face_value(front_face))],
            keeps_track(self@.bindings, cmds@, self@.bindings),
            sets_filters(self@.bindings, cmds@, None),
    {
        let mut cmds: Vec<GlCommand> = Vec::new();
        cmds.push(GlCommand::FrontFace(u32::from(front_face)));
        proof {
            assert(all_bind_nothing(cmds@) && all_leave_filters(cmds@));
            lemma_neutral_plan(self@.bindings, cmds@);
        }
        cmds
    }

    /// The call that sets the viewport.
    pub fn viewport(&self, x: i32, y: i32, width: i32, height: i32) -> (cmds: Vec<GlCommand>)
        ensures
            cmds@ == seq![GlCommand::Viewport { x, y, width, height }],
            keeps_track(self@.bindings, cmds@, self@.bindings),
            sets_filters(self@.bindings, cmds@, None),
    {
        let mut cmds: Vec<GlCommand> = Vec::new();
        cmds.push(GlCommand::Viewport { x, y, width, height });
        proof {
            assert(all_bind_nothing(cmds@) && all_leave_filters(cmds@));
            lemma_neutral_plan(self@.bindings, cmds@);
        }
        cmds
    }

    /// A vertex buffer of `count` floats in vertices of `stride` floats, given
    /// the buffer just created for it: it is bound, and storage for its floats
    /// is allocated with the usage hint.
    pub fn new_vertex_buffer(&mut self, id: u32, count: usize, stride: usize, usage: BufferUsage) -> (r: (
        GLVertexBuffer,
        Vec<GlCommand>,
    ))
        requires
            count * 4 <= usize::MAX,
        ensures
            r.0.spec_id() == id,
            r.0.spec_count() == count,
            r.0.spec_stride() == stride,
            final(self)@ == old(self)@.with_bindings(old(self)@.bindings.with_array_buffer(Some(id))),
            r.1@ == vertex_buffer_bind(old(self)@.bindings, Some(id)) + seq![
                GlCommand::BufferDataSize {
                    target: ARRAY_BUFFER,
                    size: (count * 4) as i32,
                    usage: usage_value(usage),
                },
            ],
            keeps_track(old(self)@.bindings, r.1@, final(self)@.bindings),
            sets_filters(old(self)@.bindings, r.1@, None),
    {
        let buffer = GLVertexBuffer::new(id, count, stride);
        let mut cmds = self.bind_vertex_buffer(Some(id));
        let ghost head = cmds@;
        let size = (count * 4) as i32;
        cmds.push(GlCommand::BufferDataSize { target: ARRAY_BUFFER, size, usage: u32::from(usage) });
        proof {
            let tail = seq![GlCommand::BufferDataSize { target: ARRAY_BUFFER, size, usage: usage_value(usage) }];
            assert(cmds@ =~= head + tail);
            assert(all_bind_nothing(tail) && all_leave_filters(tail));
            lemma_then_neutral(old(self)@.bindings, head, self@.bindings, tail, None);
        }
        (buffer, cmds)
    }

    /// Points vertex attribute `index` at `size` floats, `offset` floats into
    /// each vertex of `buffer`, and enables it; the buffer is bound first.
    pub fn set_vertex_buffer_attribute(
        &mut self,
        buffer: &GLVertexBuffer,
        index: u32,
        size: i32,
        offset: usize,
    ) -> (cmds: Vec<GlCommand>)
        requires
            buffer.spec_stride() * 4 <= usize::MAX,
            offset * 4 <= usize::MAX,
        ensures
            final(self)@ == old(self)@.with_bindings(
                old(self)@.bindings.with_array_buffer(Some(buffer.spec_id())),
            ),
            cmds@ == vertex_buffer_bind(old(self)@.bindings, Some(buffer.spec_id())) + seq![
                GlCommand::VertexAttribPointerF32 {
                    index,
                    size,
                    data_type: FLOAT,
                    normalized: false,
                    stride: (buffer.spec_stride() * 4) as i32,
                    offset: (offset * 4) as i32,
                },
                GlCommand::EnableVertexAttribArray(index),
            ],
            keeps_track(old(self)@.bindings, cmds@, final(self)@.bindings),
            sets_filters(old(self)@.bindings, cmds@, None),
    {
        let mut cmds = self.bind_vertex_buffer(Some(buffer.id()));
        let ghost head = cmds@;
        let stride = (buffer.stride() * 4) as i32;
        let byte_offset = (offset * 4) as i32;
        cmds.push(
            GlCommand::VertexAttribPointerF32 {
                index,
                size,
                data_type: FLOAT,
                normalized: false,
                stride,
                offset: byte_offset,
            },
        );
        cmds.push(GlCommand::EnableVertexAttribArray(index));
        proof {
            let tail = seq![
                GlCommand::VertexAttribPointerF32 {
                    index,
                    size,
                    data_type: FLOAT,
                    normalized: false,
                    stride,
                    offset: byte_offset,
                },
                GlCommand::EnableVertexAttribArray(index),
            ];
            assert(cmds@ =~= head + tail);
            assert(all_bind_nothing(tail) && all_leave_filters(tail));
            lemma_then_neutral(old(self)@.bindings, head, self@.bindings, tail, None);
        }
        cmds
    }

    /// Writes the caller's floats into `buffer`, starting `offset` floats in;
    /// the buffer is bound first.
    pub fn set_vertex_buffer_data(&mut self, buffer: &GLVertexBuffer, offset: usize) -> (cmds: Vec<
        GlCommand,
    >)
        requires
            offset * 4 <= usize::MAX,
        ensures
            final(self)@ == old(self)@.with_bindings(
                old(self)@.bindings.with_array_buffer(Some(buffer.spec_id())),
            ),
            cmds@ == vertex_buffer_bind(old(self)@.bindings, Some(buffer.spec_id())) + seq![GlCommand::BufferSubData { target: ARRAY_BUFFER, offset: (offset * 4) as i32 }],
            keeps_track(old(self)@.bindings, cmds@, final(self)@.bindings),
            sets_filters(old(self)@.bindings, cmds@, None),
    {
        let mut cmds = self.bind_vertex_buffer(Some(buffer.id()));
        let ghost head = cmds@;
        let byte_offset = (offset * 4) as i32;
        cmds.push(GlCommand::BufferSubData { target: ARRAY_BUFFER, offset: byte_offset });
        proof {
            let tail = seq![GlCommand::BufferSubData { target: ARRAY_BUFFER, offset: byte_offset }];
            assert(cmds@ =~= head + tail);
            assert(all_bind_nothing(tail) && all_leave_filters(tail));
            lemma_then_neutral(old(self)@.bindings, head, self@.bindings, tail, None);
        }
        cmds
    }

    /// An index buffer of `count` indices, given the buffer just created for
    /// it: it is bound, and storage for its indices is allocated with the
    /// usage hint.
    pub fn new_index_buffer(&mut self, id: u32, count: usize, usage: BufferUsage) -> (r: (
        GLIndexBuffer,
        Vec<GlCommand>,
    ))
        requires
            count * 4 <= usize::MAX,
        ensures
            r.0.spec_id() == id,
            r.0.spec_count() == count,
            final(self)@ == old(self)@.with_bindings(
                old(self)@.bindings.with_element_array_buffer(Some(id)),
            ),
            r.1@ == index_buffer_bind(old(self)@.bindings, Some(id)) + seq![
                GlCommand::BufferDataSize {
                    target: ELEMENT_ARRAY_BUFFER,
                    size: (count * 4) as i32,
                    usage: usage_value(usage),
                },
            ],
            keeps_track(old(self)@.bindings, r.1@, final(self)@.bindings),
            sets_filters(old(self)@.bindings, r.1@, None),
    {
        let buffer = GLIndexBuffer::new(id, count);
        let mut cmds = self.bind_index_buffer(Some(id));
        let ghost head = cmds@;
        let size = (count * 4) as i32;
        cmds.push(
            GlCommand::BufferDataSize { target: ELEMENT_ARRAY_BUFFER, size, usage: u32::from(usage) },
        );
        proof {
            let tail = seq![
                GlCommand::BufferDataSize { target: ELEMENT_ARRAY_BUFFER, size, usage: usage_value(usage) },
            ];
            assert(cmds@ =~= head + tail);
            assert(all_bind_nothing(tail) && all_leave_filters(tail));
            lemma_then_neutral(old(self)@.bindings, head, self@.bindings, tail, None);
        }
        (buffer, cmds)
    }

    /// Writes the caller's indices into `buffer`, starting `offset` indices
    /// in; the buffer is bound first.
    pub fn set_index_buffer_data(&mut self, buffer: &GLIndexBuffer, offset: usize) -> (cmds: Vec<
        GlCommand,
    >)
        requires
            offset * 4 <= usize::MAX,
        ensures
            final(self)@ == old(self)@.with_bindings(
                old(self)@.bindings.with_element_array_buffer(Some(buffer.spec_id())),
            ),
            cmds@ == index_buffer_bind(old(self)@.bindings, Some(buffer.spec_id())) + seq![
                GlCommand::BufferSubData { target: ELEMENT_ARRAY_BUFFER, offset: (offset * 4) as i32 },
            ],
            keeps_track(old(self)@.bindings, cmds@, final(self)@.bindings),
            sets_filters(old(self)@.bindings, cmds@, None),
    {
        let mut cmds = self.bind_index_buffer(Some(buffer.id()));
        let ghost head = cmds@;
        let byte_offset = (offset * 4) as i32;
        cmds.push(GlCommand::BufferSubData { target: ELEMENT_ARRAY_BUFFER, offset: byte_offset });
        proof {
            let tail = seq![
                GlCommand::BufferSubData { target: ELEMENT_ARRAY_BUFFER, offset: byte_offset },
            ];
            assert(cmds@ =~= head + tail);
            assert(all_bind_nothing(tail) && all_leave_filters(tail));
            lemma_then_neutral(old(self)@.bindings, head, self@.bindings, tail, None);
        }
        cmds
    }

    /// Makes `shader` the current program, as setting one of its uniforms
    /// needs; no call is made when it is current already.
    pub fn use_shader(&mut self, shader: &GLProgram) -> (cmds: Vec<GlCommand>)
        ensures
            final(self)@ == old(self)@.with_bindings(
                old(self)@.bindings.with_program(Some(shader.spec_id())),
            ),
            cmds@ == program_bind(old(self)@.bindings, Some(shader.spec_id())),
            keeps_track(old(self)@.bindings, cmds@, final(self)@.bindings),
            sets_filters(old(self)@.bindings, cmds@, None),
    {
        self.bind_shader(Some(shader.id()))
    }

    /// Binds `canvas`'s framebuffer, or the default framebuffer for `None`;
    /// no call is made when it is bound already.
    pub fn bind_canvas(&mut self, canvas: Option<&GLFramebuffer>) -> (cmds: Vec<GlCommand>)
        ensures
            ({
                let wanted = match canvas {
                    Some(f) => Some(f.spec_id()),
                    None => None,
                };
                &&& final(self)@ == old(self)@.with_bindings(
                    old(self)@.bindings.with_framebuffer(wanted),
                )
                &&& cmds@ == framebuffer_bind(old(self)@.bindings, wanted)
            }),
            keeps_track(old(self)@.bindings, cmds@, final(self)@.bindings),
            sets_filters(old(self)@.bindings, cmds@, None),
    {
        let wanted = match canvas {
            Some(f) => Some(f.id()),
            None => None,
        };
        self.bind_framebuffer(wanted)
    }

    /// A texture of `width` by `height` pixels with no data, given the
    /// texture just created for it: it is bound, set to repeat, filtered with
    /// the device's default filter mode, and given storage.
    pub fn new_texture_empty(&mut self, id: u32, width: i32, height: i32) -> (r: (
        GLTexture,
        Vec<GlCommand>,
    ))
        ensures
            r.0.spec_id() == id,
            r.0.spec_width() == width,
            r.0.spec_height() == height,
            r.0.spec_filter_mode() == old(self)@.default_filter_mode,
            final(self)@ == old(self)@.with_bindings(old(self)@.bindings.with_texture(Some(id))),
            r.1@ == texture_creation_plan(
                old(self)@.bindings,
                id,
                width,
                height,
                old(self)@.default_filter_mode,
            ),
            keeps_track(old(self)@.bindings, r.1@, final(self)@.bindings),
            sets_filters(
                old(self)@.bindings,
                r.1@,
                Some((id, filter_value(old(self)@.default_filter_mode))),
            ),
    {
        let texture = GLTexture::new(id, width, height, self.default_filter_mode);
        let mut cmds = self.bind_texture(Some(id));
        let ghost head = cmds@;
        let filter = i32::from(self.default_filter_mode);
        let mut tail: Vec<GlCommand> = Vec::new();
        tail.push(
            GlCommand::TexParameterI32 {
                target: TEXTURE_2D,
                parameter: TEXTURE_WRAP_S,
                value: REPEAT as i32,
            },
        );
        tail.push(
            GlCommand::TexParameterI32 {
                target: TEXTURE_2D,
                parameter: TEXTURE_WRAP_T,
                value: REPEAT as i32,
            },
        );
        tail.push(
            GlCommand::TexParameterI32 {
                target: TEXTURE_2D,
                parameter: TEXTURE_MIN_FILTER,
                value: filter,
            },
        );
        tail.push(
            GlCommand::TexParameterI32 {
                target: TEXTURE_2D,
                parameter: TEXTURE_MAG_FILTER,
                value: filter,
            },
        );
        tail.push(
            GlCommand::TexParameterI32 { target: TEXTURE_2D, parameter: TEXTURE_BASE_LEVEL, value: 0 },
        );
        tail.push(
            GlCommand::TexParameterI32 { target: TEXTURE_2D, parameter: TEXTURE_MAX_LEVEL, value: 0 },
        );
        tail.push(
            GlCommand::TexImage2D {
                target: TEXTURE_2D,
                level: 0,
                internal_format: RGBA as i32,
                width,
                height,
                border: 0,
                format: RGBA,
                ty: UNSIGNED_BYTE,
            },
        );
        let ghost tail_seq = tail@;
        cmds.append(&mut tail);
        proof {
            assert(tail_seq =~= texture_setup_calls(width, height, old(self)@.default_filter_mode));
            assert(cmds@ =~= texture_creation_plan(
                old(self)@.bindings,
                id,
                width,
                height,
                old(self)@.default_filter_mode,
            ));
            lemma_texture_creation(old(self)@.bindings, id, width, height, old(self)@.default_filter_mode);
        }
        (texture, cmds)
    }

    /// Whether `data_len` bytes are enough for a `width` by `height` RGBA
    /// texture: an error naming both counts if fewer bytes are given than
    /// the texture needs.
    pub fn check_texture_data(width: i32, height: i32, data_len: usize) -> (r: Result<(), TetraError>)
        requires
            texture_size_computable(width, height),
        ensures
            r == if texture_bytes_needed(width, height) > data_len {
                Err(
                    TetraError::NotEnoughData {
                        expected: texture_bytes_needed(width, height),
                        actual: data_len,
                    },
                )
            } else {
                Ok(())
            },
    {
        let product = width * height * 4;
        let expected = product as usize;
        if expected > data_len {
            Err(TetraError::NotEnoughData { expected, actual: data_len })
        } else {
            Ok(())
        }
    }

    /// A texture of `width` by `height` pixels filled with the caller's
    /// `data`, given the texture just created for it. Too little data is
    /// refused with both byte counts, with no call made and the device
    /// unchanged. Otherwise the texture is set up as by `new_texture_empty`,
    /// and then the whole image is written with all of `data`, as by
    /// `set_texture_data`.
    pub fn new_texture(&mut self, id: u32, width: i32, height: i32, data: &[u8]) -> (r: Result<
        (GLTexture, Vec<GlCommand>),
        TetraError,
    >)
        requires
            texture_size_computable(width, height),
        ensures
            (r is Err) == (texture_bytes_needed(width, height) > data@.len()),
            match r {
                Err(e) => {
                    &&& e == (TetraError::NotEnoughData {
                        expected: texture_bytes_needed(width, height),
                        actual: data@.len() as usize,
                    })
                    &&& final(self)@ == old(self)@
                },
                Ok((texture, cmds)) => {
                    &&& texture.spec_id() == id
                    &&& texture.spec_width() == width
                    &&& texture.spec_height() == height
                    &&& texture.spec_filter_mode() == old(self)@.default_filter_mode
                    &&& final(self)@ == old(self)@.with_bindings(
                        old(self)@.bindings.with_texture(Some(id)),
                    )
                    &&& cmds@.take(
                        texture_creation_plan(
                            old(self)@.bindings,
                            id,
                            width,
                            height,
                            old(self)@.default_filter_mode,
                        ).len() as int,
                    ) == texture_creation_plan(
                        old(self)@.bindings,
                        id,
                        width,
                        height,
                        old(self)@.default_filter_mode,
                    )
                    &&& is_upload_plan(
                        cmds@.skip(
                            texture_creation_plan(
                                old(self)@.bindings,
                                id,
                                width,
                                height,
                                old(self)@.default_filter_mode,
                            ).len() as int,
                        ),
                        old(self)@.bindings.with_texture(Some(id)),
                        id,
                        0,
                        0,
                        width,
                        height,
                        data@,
                    )
                    &&& keeps_track(old(self)@.bindings, cmds@, final(self)@.bindings)
                    &&& sets_filters(
                        old(self)@.bindings,
                        cmds@,
                        Some((id, filter_value(old(self)@.default_filter_mode))),
                    )
                },
            },
    {
        match Self::check_texture_data(width, height, data.len()) {
            Err(e) => {
                return Err(e);
            },
            Ok(()) => {},
        }
        let (texture, mut cmds) = self.new_texture_empty(id, width, height);
        let ghost mid = self@.bindings;
        let mut more = self.set_texture_data(&texture, data, 0, 0, width, height);
        let ghost first = cmds@;
        let ghost second = more@;
        cmds.append(&mut more);
        proof {
            lemma_keeps_track_compose(old(self)@.bindings, first, mid, second, self@.bindings);
            lemma_sets_filters_compose(
                old(self)@.bindings,
                first,
                mid,
                second,
                Some((id, filter_value(old(self)@.default_filter_mode))),
                None,
            );
            assert(cmds@.take(first.len() as int) =~= first);
            assert(cmds@.skip(first.len() as int) =~= second);
        }
        Ok((texture, cmds))
    }

    /// Writes the RGBA pixels `data` into the `width` by `height` region of
    /// `texture` at (`x`, `y`); the texture is bound first.
    pub fn set_texture_data(
        &mut self,
        texture: &GLTexture,
        data: &[u8],
        x: i32,
        y: i32,
        width: i32,
        height: i32,
    ) -> (cmds: Vec<GlCommand>)
        ensures
            final(self)@ == old(self)@.with_bindings(
                old(self)@.bindings.with_texture(Some(texture.spec_id())),
            ),
            is_upload_plan(
                cmds@,
                old(self)@.bindings,
                texture.spec_id(),
                x,
                y,
                width,
                height,
                data@,
            ),
            keeps_track(old(self)@.bindings, cmds@, final(self)@.bindings),
            sets_filters(old(self)@.bindings, cmds@, None),
    {
        let mut cmds = self.bind_texture(Some(texture.id()));
        let ghost head = cmds@;
        let pixels = copy_bytes(data);
        cmds.push(
            GlCommand::TexSubImage2D {
                target: TEXTURE_2D,
                level: 0,
                x_offset: x,
                y_offset: y,
                width,
                height,
                format: RGBA,
                ty: UNSIGNED_BYTE,
                pixels,
            },
        );
        proof {
            assert(cmds@.drop_last() =~= head);
            lemma_texture_upload(
                cmds@,
                old(self)@.bindings,
                texture.spec_id(),
                x,
                y,
                width,
                height,
                data@,
            );
        }
        cmds
    }

    /// Sets how `texture` is filtered in both directions, and records the
    /// mode on the texture; the texture is bound first. The texture keeps its
    /// name and size.
    pub fn set_texture_filter_mode(&mut self, texture: &mut GLTexture, filter_mode: FilterMode) -> (cmds:
        Vec<GlCommand>)
        ensures
            final(self)@ == old(self)@.with_bindings(
                old(self)@.bindings.with_texture(Some(old(texture).spec_id())),
            ),
            cmds@ == texture_filter_plan(old(self)@.bindings, old(texture).spec_id(), filter_mode),
            final(texture).spec_id() == old(texture).spec_id(),
            final(texture).spec_width() == old(texture).spec_width(),
            final(texture).spec_height() == old(texture).spec_height(),
            final(texture).spec_filter_mode() == filter_mode,
            keeps_track(old(self)@.bindings, cmds@, final(self)@.bindings),
            sets_filters(
                old(self)@.bindings,
                cmds@,
                Some((old(texture).spec_id(), filter_value(filter_mode))),
            ),
    {
        let mut cmds = self.bind_texture(Some(texture.id()));
        let value = i32::from(filter_mode);
        cmds.push(
            GlCommand::TexParameterI32 { target: TEXTURE_2D, parameter: TEXTURE_MIN_FILTER, value },
        );
        cmds.push(
            GlCommand::TexParameterI32 { target: TEXTURE_2D, parameter: TEXTURE_MAG_FILTER, value },
        );
        proof {
            assert(cmds@ =~= texture_filter_plan(
                old(self)@.bindings,
                old(texture).spec_id(),
                filter_mode,
            ));
            lemma_texture_filter(old(self)@.bindings, old(texture).spec_id(), filter_mode);
        }
        texture.set_filter_mode(filter_mode);
        cmds
    }

    /// A canvas: the framebuffer just created, with a `width` by `height`
    /// texture (the one just created, set up as by `new_texture_empty`) as
    /// its colour attachment. The framebuffer is left bound, unless
    /// `rebind_previous` asks for the one bound before to be bound again.
    pub fn new_canvas(
        &mut self,
        framebuffer_id: u32,
        texture_id: u32,
        width: i32,
        height: i32,
        rebind_previous: bool,
    ) -> (r: (GLFramebuffer, GLTexture, Vec<GlCommand>))
        ensures
            r.0.spec_id() == framebuffer_id,
            r.1.spec_id() == texture_id,
            r.1.spec_width() == width,
            r.1.spec_height() == height,
            r.1.spec_filter_mode() == old(self)@.default_filter_mode,
            final(self)@ == old(self)@.with_bindings(
                old(self)@.bindings.with_texture(Some(texture_id)).with_framebuffer(
                    if rebind_previous {
                        old(self)@.bindings.framebuffer
                    } else {
                        Some(framebuffer_id)
                    },
                ),
            ),
            r.2@ == texture_creation_plan(
                old(self)@.bindings,
                texture_id,
                width,
                height,
                old(self)@.default_filter_mode,
            ) + framebuffer_bind(old(self)@.bindings, Some(framebuffer_id)) + seq![
                GlCommand::FramebufferTexture2D {
                    target: FRAMEBUFFER,
                    attachment: COLOR_ATTACHMENT0,
                    texture_target: TEXTURE_2D,
                    texture: Some(texture_id),
                    level: 0,
                },
            ] + if rebind_previous {
                seq![
                    GlCommand::BindFramebuffer {
                        target: FRAMEBUFFER,
                        framebuffer: old(self)@.bindings.framebuffer,
                    },
                ]
            } else {
                Seq::empty()
            },
            keeps_track(old(self)@.bindings, r.2@, final(self)@.bindings),
            sets_filters(
                old(self)@.bindings,
                r.2@,
                Some((texture_id, filter_value(old(self)@.default_filter_mode))),
            ),
    {
        let framebuffer = GLFramebuffer::new(framebuffer_id);
        let (texture, mut cmds) = self.new_texture_empty(texture_id, width, height);
        let ghost after_texture = self@.bindings;
        let previous = self.bound.framebuffer;
        let mut bind = self.bind_framebuffer(Some(framebuffer_id));
        let ghost after_bind = self@.bindings;
        let ghost first = cmds@;
        let ghost second = bind@;
        cmds.append(&mut bind);
        let ghost change = Some((texture_id, filter_value(old(self)@.default_filter_mode)));
        proof {
            lemma_keeps_track_compose(old(self)@.bindings, first, after_texture, second, after_bind);
            lemma_sets_filters_compose(
                old(self)@.bindings,
                first,
                after_texture,
                second,
                change,
                None,
            );
        }
        let ghost bound_plan = cmds@;
        cmds.push(
            GlCommand::FramebufferTexture2D {
                target: FRAMEBUFFER,
                attachment: COLOR_ATTACHMENT0,
                texture_target: TEXTURE_2D,
                texture: Some(texture_id),
                level: 0,
            },
        );
        let ghost attached = cmds@;
        proof {
            let tail = seq![
                GlCommand::FramebufferTexture2D {
                    target: FRAMEBUFFER,
                    attachment: COLOR_ATTACHMENT0,
                    texture_target: TEXTURE_2D,
                    texture: Some(texture_id),
                    level: 0,
                },
            ];
            assert(attached =~= bound_plan + tail);
            assert(all_bind_nothing(tail) && all_leave_filters(tail));
            lemma_then_neutral(old(self)@.bindings, bound_plan, after_bind, tail, change);
        }
        if rebind_previous {
            cmds.push(GlCommand::BindFramebuffer { target: FRAMEBUFFER, framebuffer: previous });
            self.bound.framebuffer = previous;
            proof {
                let c = GlCommand::BindFramebuffer { target: FRAMEBUFFER, framebuffer: previous };
                lemma_keeps_track_single(after_bind, c, self@.bindings);
                lemma_keeps_track_compose(
                    old(self)@.bindings,
                    attached,
                    after_bind,
                    seq![c],
                    self@.bindings,
                );
                lemma_sets_filters_single(after_bind, c, None);
                lemma_sets_filters_compose(
                    old(self)@.bindings,
                    attached,
                    after_bind,
                    seq![c],
                    change,
                    None,
                );
                assert(cmds@ =~= attached + seq![c]);
            }
        } else {
            proof {
                assert(cmds@ =~= attached + Seq::<GlCommand>::empty());
            }
        }
        (framebuffer, texture, cmds)
    }

    /// Draws `count` indices of `index_buffer` as triangles, with the
    /// vertex buffer, index buffer, texture and shader bound first (each
    /// only if it is not bound already).
    pub fn draw_elements(
        &mut self,
        vertex_buffer: &GLVertexBuffer,
        index_buffer: &GLIndexBuffer,
        texture: &GLTexture,
        shader: &GLProgram,
        count: i32,
    ) -> (cmds: Vec<GlCommand>)
        ensures
            final(self)@ == old(self)@.with_bindings(
                draw_bindings(
                    old(self)@.bindings,
                    vertex_buffer.spec_id(),
                    index_buffer.spec_id(),
                    texture.spec_id(),
                    shader.spec_id(),
                ),
            ),
            cmds@ == draw_plan(
                old(self)@.bindings,
                vertex_buffer.spec_id(),
                index_buffer.spec_id(),
                texture.spec_id(),
                shader.spec_id(),
                count,
            ),
            keeps_track(old(self)@.bindings, cmds@, final(self)@.bindings),
            sets_filters(old(self)@.bindings, cmds@, None),
    {
        let b0 = Ghost(self@.bindings);
        let mut cmds = self.bind_vertex_buffer(Some(vertex_buffer.id()));
        let b1 = Ghost(self@.bindings);
        let ghost p1 = cmds@;
        let mut c2 = self.bind_index_buffer(Some(index_buffer.id()));
        let b2 = Ghost(self@.bindings);
        let ghost q2 = c2@;
        cmds.append(&mut c2);
        proof {
            lemma_keeps_track_compose(b0@, p1, b1@, q2, b2@);
            lemma_sets_filters_compose(b0@, p1, b1@, q2, None, None);
        }
        let ghost p2 = cmds@;
        let mut c3 = self.bind_texture(Some(texture.id()));
        let b3 = Ghost(self@.bindings);
        let ghost q3 = c3@;
        cmds.append(&mut c3);
        proof {
            lemma_keeps_track_compose(b0@, p2, b2@, q3, b3@);
            lemma_sets_filters_compose(b0@, p2, b2@, q3, None, None);
        }
        let ghost p3 = cmds@;
        let mut c4 = self.bind_shader(Some(shader.id()));
        let b4 = Ghost(self@.bindings);
        let ghost q4 = c4@;
        cmds.append(&mut c4);
        proof {
            lemma_keeps_track_compose(b0@, p3, b3@, q4, b4@);
            lemma_sets_filters_compose(b0@, p3, b3@, q4, None, None);
        }
        let ghost p4 = cmds@;
        cmds.push(
            GlCommand::DrawElements { mode: TRIANGLES, count, element_type: UNSIGNED_INT, offset: 0 },
        );
        proof {
            let tail = seq![
                GlCommand::DrawElements { mode: TRIANGLES, count, element_type: UNSIGNED_INT, offset: 0 },
            ];
            assert(cmds@ =~= p4 + tail);
            assert(all_bind_nothing(tail) && all_leave_filters(tail));
            lemma_then_neutral(b0@, p4, b4@, tail, None);
        }
        cmds
    }

    fn bind_vertex_buffer(&mut self, buffer: Option<u32>) -> (cmds: Vec<GlCommand>)
        ensures
            cmds@ == vertex_buffer_bind(old(self)@.bindings, buffer),
            final(self)@ == old(self)@.with_bindings(old(self)@.bindings.with_array_buffer(buffer)),
            keeps_track(old(self)@.bindings, cmds@, final(self)@.bindings),
            sets_filters(old(self)@.bindings, cmds@, None),
    {
        let mut cmds: Vec<GlCommand> = Vec::new();
        if self.bound.array_buffer != buffer {
            cmds.push(GlCommand::BindBuffer { target: ARRAY_BUFFER, buffer });
            self.bound.array_buffer = buffer;
        }
        proof {
            lemma_vertex_buffer_bind(old(self)@.bindings, buffer);
            assert(cmds@ =~= vertex_buffer_bind(old(self)@.bindings, buffer));
        }
        cmds
    }

    fn bind_index_buffer(&mut self, buffer: Option<u32>) -> (cmds: Vec<GlCommand>)
        ensures
            cmds@ == index_buffer_bind(old(self)@.bindings, buffer),
            final(self)@ == old(self)@.with_bindings(
                old(self)@.bindings.with_element_array_buffer(buffer),
            ),
            keeps_track(old(self)@.bindings, cmds@, final(self)@.bindings),
            sets_filters(old(self)@.bindings, cmds@, None),
    {
        let mut cmds: Vec<GlCommand> = Vec::new();
        if self.bound.element_array_buffer != buffer {
            cmds.push(GlCommand::BindBuffer { target: ELEMENT_ARRAY_BUFFER, buffer });
            self.bound.element_array_buffer = buffer;
        }
        proof {
            lemma_index_buffer_bind(old(self)@.bindings, buffer);
            assert(cmds@ =~= index_buffer_bind(old(self)@.bindings, buffer));
        }
        cmds
    }

    fn bind_shader(&mut self, program: Option<u32>) -> (cmds: Vec<GlCommand>)
        ensures
            cmds@ == program_bind(old(self)@.bindings, program),
            final(self)@ == old(self)@.with_bindings(old(self)@.bindings.with_program(program)),
            keeps_track(old(self)@.bindings, cmds@, final(self)@.bindings),
            sets_filters(old(self)@.bindings, cmds@, None),
    {
        let mut cmds: Vec<GlCommand> = Vec::new();
        if self.bound.program != program {
            cmds.push(GlCommand::UseProgram(program));
            self.bound.program = program;
        }
        proof {
            lemma_program_bind(old(self)@.bindings, program);
            assert(cmds@ =~= program_bind(old(self)@.bindings, program));
        }
        cmds
    }

    fn bind_texture(&mut self, texture: Option<u32>) -> (cmds: Vec<GlCommand>)
        ensures
            cmds@ == texture_bind(old(self)@.bindings, texture),
            final(self)@ == old(self)@.with_bindings(old(self)@.bindings.with_texture(texture)),
            keeps_track(old(self)@.bindings, cmds@, final(self)@.bindings),
            sets_filters(old(self)@.bindings, cmds@, None),
    {
        let mut cmds: Vec<GlCommand> = Vec::new();
        if self.bound.texture != texture {
            cmds.push(GlCommand::ActiveTexture(TEXTURE0));
            cmds.push(GlCommand::BindTexture { target: TEXTURE_2D, texture });
            self.bound.texture = texture;
        }
        proof {
            lemma_texture_bind(old(self)@.bindings, texture);
            assert(cmds@ =~= texture_bind(old(self)@.bindings, texture));
        }
        cmds
    }

    fn bind_framebuffer(&mut self, framebuffer: Option<u32>) -> (cmds: Vec<GlCommand>)
        ensures
            cmds@ == framebuffer_bind(old(self)@.bindings, framebuffer),
            final(self)@ == old(self)@.with_bindings(
                old(self)@.bindings.with_framebuffer(framebuffer),
            ),
            keeps_track(old(self)@.bindings, cmds@, final(self)@.bindings),
            sets_filters(old(self)@.bindings, cmds@, None),
    {
        let mut cmds: Vec<GlCommand> = Vec::new();
        if self.bound.framebuffer != framebuffer {
            cmds.push(GlCommand::BindFramebuffer { target: FRAMEBUFFER, framebuffer });
            self.bound.framebuffer = framebuffer;
        }
        proof {
            lemma_framebuffer_bind(old(self)@.bindings, framebuffer);
            assert(cmds@ =~= framebuffer_bind(old(self)@.bindings, framebuffer));
        }
        cmds
    }
}

} // verus!
