//! The OpenGL vocabulary of the device: the enumerants it passes, the
//! commands and queries it plans, and a model of the context's bindings
//! against which a plan is judged.
use vstd::prelude::*;

verus! {

// OpenGL enumerants, with the values that glow gives them.
pub const ARRAY_BUFFER: u32 = 0x8892;
pub const ELEMENT_ARRAY_BUFFER: u32 = 0x8893;
pub const STATIC_DRAW: u32 = 0x88E4;
pub const DYNAMIC_DRAW: u32 = 0x88E8;
pub const CW: u32 = 0x0900;
pub const CCW: u32 = 0x0901;
pub const NEAREST: u32 = 0x2600;
pub const LINEAR: u32 = 0x2601;
pub const CULL_FACE: u32 = 0x0B44;
pub const BLEND: u32 = 0x0BE2;
pub const ONE: u32 = 1;
pub const SRC_ALPHA: u32 = 0x0302;
pub const ONE_MINUS_SRC_ALPHA: u32 = 0x0303;
pub const FLOAT: u32 = 0x1406;
pub const UNSIGNED_BYTE: u32 = 0x1401;
pub const UNSIGNED_INT: u32 = 0x1405;
pub const VERTEX_SHADER: u32 = 0x8B31;
pub const FRAGMENT_SHADER: u32 = 0x8B30;
pub const TEXTURE0: u32 = 0x84C0;
pub const TEXTURE_2D: u32 = 0x0DE1;
pub const TEXTURE_WRAP_S: u32 = 0x2802;
pub const TEXTURE_WRAP_T: u32 = 0x2803;
pub const REPEAT: u32 = 0x2901;
pub const TEXTURE_MIN_FILTER: u32 = 0x2801;
pub const TEXTURE_MAG_FILTER: u32 = 0x2800;
pub const TEXTURE_BASE_LEVEL: u32 = 0x813C;
pub const TEXTURE_MAX_LEVEL: u32 = 0x813D;
pub const RGBA: u32 = 0x1908;
pub const FRAMEBUFFER: u32 = 0x8D40;
pub const COLOR_ATTACHMENT0: u32 = 0x8CE0;
pub const TRIANGLES: u32 = 0x0004;

/// The two stages of a shader program.
#[derive(Clone, Copy, Debug, PartialEq, Eq, Structural)]
pub enum ShaderKind {
    Vertex,
    Fragment,
}

/// The vertex attributes that every program has at fixed locations.
#[derive(Clone, Copy, Debug, PartialEq, Eq, Structural)]
pub enum Attribute {
    Position,
    Uv,
    Color,
}

/// The uniforms that the device sets itself.
#[derive(Clone, Copy, Debug, PartialEq, Eq, Structural)]
pub enum Uniform {
    /// The sampler of the texture being drawn.
    Texture,
}

impl Attribute {
    /// The attribute's name in shader source.
    pub fn name(&self) -> (r: &'static str)
        ensures
            r@ == match self {
                Attribute::Position => "a_position"@,
                Attribute::Uv => "a_uv"@,
                Attribute::Color => "a_color"@,
            },
    {
        match self {
            Attribute::Position => "a_position",
            Attribute::Uv => "a_uv",
            Attribute::Color => "a_color",
        }
    }
}

impl Uniform {
    /// The uniform's name in shader source.
    pub fn name(&self) -> (r: &'static str)
        ensures
            r@ == "u_texture"@,
    {
        "u_texture"
    }
}

/// One OpenGL call that the device has decided to make. Object names are the
/// raw GL names (`u32`); `None` stands for "no object" (name zero).
///
/// `TexSubImage2D` carries the pixels it writes. `BufferSubData` is sent
/// with the vertex or index data that the caller of the planning function
/// holds, and `ShaderSource` with the source text of that kind of shader.
#[derive(Clone, Debug, PartialEq, Eq)]
pub enum GlCommand {
    Enable(u32),
    BlendFuncSeparate { src_rgb: u32, dst_rgb: u32, src_alpha: u32, dst_alpha: u32 },
    BindVertexArray(Option<u32>),
    DeleteVertexArray(u32),
    FrontFace(u32),
    Viewport { x: i32, y: i32, width: i32, height: i32 },
    BindBuffer { target: u32, buffer: Option<u32> },
    BufferDataSize { target: u32, size: i32, usage: u32 },
    BufferSubData { target: u32, offset: i32 },
    VertexAttribPointerF32 {
        index: u32,
        size: i32,
        data_type: u32,
        normalized: bool,
        stride: i32,
        offset: i32,
    },
    EnableVertexAttribArray(u32),
    BindAttribLocation { program: u32, index: u32, attribute: Attribute },
    ShaderSource { shader: u32, kind: ShaderKind },
    CompileShader(u32),
    AttachShader { program: u32, shader: u32 },
    LinkProgram(u32),
    DeleteShader(u32),
    UseProgram(Option<u32>),
    Uniform1I32 { location: Option<u32>, value: i32 },
    ActiveTexture(u32),
    BindTexture { target: u32, texture: Option<u32> },
    TexParameterI32 { target: u32, parameter: u32, value: i32 },
    TexImage2D {
        target: u32,
        level: i32,
        internal_format: i32,
        width: i32,
        height: i32,
        border: i32,
        format: u32,
        ty: u32,
    },
    TexSubImage2D {
        target: u32,
        level: i32,
        x_offset: i32,
        y_offset: i32,
        width: i32,
        height: i32,
        format: u32,
        ty: u32,
        pixels: Vec<u8>,
    },
    BindFramebuffer { target: u32, framebuffer: Option<u32> },
    FramebufferTexture2D {
        target: u32,
        attachment: u32,
        texture_target: u32,
        texture: Option<u32>,
        level: i32,
    },
    DrawElements { mode: u32, count: i32, element_type: u32, offset: i32 },
    DeleteBuffer(u32),
    DeleteProgram(u32),
    DeleteTexture(u32),
    DeleteFramebuffer(u32),
}

/// The objects that the context has bound at the points the device caches:
/// the array and element array buffers, the current program, the 2D texture
/// of unit 0, the framebuffer and the vertex array.
#[derive(Clone, Copy, Debug, PartialEq, Eq)]
pub struct GlBindings {
    pub array_buffer: Option<u32>,
    pub element_array_buffer: Option<u32>,
    pub program: Option<u32>,
    pub texture: Option<u32>,
    pub framebuffer: Option<u32>,
    pub vertex_array: Option<u32>,
}

impl GlBindings {
    /// Nothing bound anywhere.
    pub open spec fn empty() -> GlBindings {
        GlBindings {
            array_buffer: None,
            element_array_buffer: None,
            program: None,
            texture: None,
            framebuffer: None,
            vertex_array: None,
        }
    }

    pub open spec fn with_array_buffer(self, b: Option<u32>) -> GlBindings {
        GlBindings { array_buffer: b, ..self }
    }

    pub open spec fn with_element_array_buffer(self, b: Option<u32>) -> GlBindings {
        GlBindings { element_array_buffer: b, ..self }
    }

    pub open spec fn with_program(self, p: Option<u32>) -> GlBindings {
        GlBindings { program: p, ..self }
    }

    pub open spec fn with_texture(self, t: Option<u32>) -> GlBindings {
        GlBindings { texture: t, ..self }
    }

    pub open spec fn with_framebuffer(self, f: Option<u32>) -> GlBindings {
        GlBindings { framebuffer: f, ..self }
    }

    pub open spec fn with_vertex_array(self, v: Option<u32>) -> GlBindings {
        GlBindings { vertex_array: v, ..self }
    }
}

/// A model of the OpenGL context as far as the device needs it: the bindings
/// above, the active texture unit, and the minifying and magnifying filter
/// of each texture (by GL name) that has been given one.
pub struct GlModel {
    pub bindings: GlBindings,
    pub active_texture: u32,
    pub min_filter: Map<u32, i32>,
    pub mag_filter: Map<u32, i32>,
}

/// `binding` with the object `name` unbound, as deleting a bound object does.
pub open spec fn unbind(binding: Option<u32>, name: u32) -> Option<u32> {
    if binding == Some(name) {
        None
    } else {
        binding
    }
}

/// The effect of one command on the context's bindings. Commands that bind
/// nothing leave the bindings as they are; deleting a bound object reverts
/// its binding to none; a 2D texture binding reaches unit 0 only while unit 0
/// is the active one. A filter parameter set while unit 0 is active goes to
/// the texture bound there; set on another unit it goes to a texture that the
/// model does not follow, and the filters it records are then left open.
/// Deleting a texture deletes its filters. The element array buffer binding is taken to belong to
/// the context, as the device's cache takes it (binding a vertex array does
/// not change it here).
pub open spec fn apply(m: GlModel, c: GlCommand) -> GlModel {
    let b = m.bindings;
    match c {
        GlCommand::BindBuffer { target, buffer } => if target == ARRAY_BUFFER {
            GlModel { bindings: b.with_array_buffer(buffer), ..m }
        } else if target == ELEMENT_ARRAY_BUFFER {
            GlModel { bindings: b.with_element_array_buffer(buffer), ..m }
        } else {
            m
        },
        GlCommand::UseProgram(p) => GlModel { bindings: b.with_program(p), ..m },
        GlCommand::ActiveTexture(unit) => GlModel { active_texture: unit, ..m },
        GlCommand::BindTexture { target, texture } => if target == TEXTURE_2D && m.active_texture
            == TEXTURE0 {
            GlModel { bindings: b.with_texture(texture), ..m }
        } else {
            m
        },
        GlCommand::BindFramebuffer { target, framebuffer } => if target == FRAMEBUFFER {
            GlModel { bindings: b.with_framebuffer(framebuffer), ..m }
        } else {
            m
        },
        GlCommand::BindVertexArray(v) => GlModel { bindings: b.with_vertex_array(v), ..m },
        GlCommand::DeleteBuffer(name) => GlModel {
            bindings: b.with_array_buffer(unbind(b.array_buffer, name)).with_element_array_buffer(
                unbind(b.element_array_buffer, name),
            ),
            ..m
        },
        GlCommand::DeleteTexture(name) => GlModel {
            bindings: b.with_texture(unbind(b.texture, name)),
            min_filter: m.min_filter.remove(name),
            mag_filter: m.mag_filter.remove(name),
            ..m
        },
        GlCommand::TexParameterI32 { target, parameter, value } => if target != TEXTURE_2D || (
        parameter != TEXTURE_MIN_FILTER && parameter != TEXTURE_MAG_FILTER) {
            m
        } else if m.active_texture != TEXTURE0 {
            GlModel { min_filter: arbitrary(), mag_filter: arbitrary(), ..m }
        } else {
            match b.texture {
                Some(t) => if parameter == TEXTURE_MIN_FILTER {
                    GlModel { min_filter: m.min_filter.insert(t, value), ..m }
                } else {
                    GlModel { mag_filter: m.mag_filter.insert(t, value), ..m }
                },
                None => m,
            }
        },
        GlCommand::DeleteFramebuffer(name) => GlModel {
            bindings: b.with_framebuffer(unbind(b.framebuffer, name)),
            ..m
        },
        GlCommand::DeleteVertexArray(name) => GlModel {
            bindings: b.with_vertex_array(unbind(b.vertex_array, name)),
            ..m
        },
        _ => m,
    }
}

/// The context after running `cmds` in order from `m`.
pub open spec fn run(m: GlModel, cmds: Seq<GlCommand>) -> GlModel
    decreases cmds.len(),
{
    if cmds.len() == 0 {
        m
    } else {
        apply(run(m, cmds.drop_last()), cmds.last())
    }
}

/// Running `cmds` on any context whose bindings are `before` leaves it with
/// the bindings `after`, whatever texture unit was active.
pub open spec fn keeps_track(before: GlBindings, cmds: Seq<GlCommand>, after: GlBindings) -> bool {
    forall|m: GlModel| m.bindings == before ==> (#[trigger] run(m, cmds)).bindings == after
}

/// Running two command lists one after the other is running their
/// concatenation.
pub proof fn lemma_run_append(m: GlModel, a: Seq<GlCommand>, b: Seq<GlCommand>)
    ensures
        run(m, a + b) == run(run(m, a), b),
    decreases b.len(),
{
    if b.len() == 0 {
        assert(a + b =~= a);
    } else {
        lemma_run_append(m, a, b.drop_last());
        assert((a + b).drop_last() =~= a + b.drop_last());
        assert((a + b).last() == b.last());
    }
}

/// One command on its own.
pub proof fn lemma_run_single(m: GlModel, c: GlCommand)
    ensures
        run(m, seq![c]) == apply(m, c),
{
    let s = seq![c];
    assert(s.drop_last() =~= Seq::<GlCommand>::empty());
    assert(run(m, s.drop_last()) == m);
    assert(s.last() == c);
}

/// Law: if one plan takes the bindings from `a` to `b` and a second from `b`
/// to `c`, running the first and then the second takes them from `a` to `c`.
pub proof fn lemma_keeps_track_compose(
    a: GlBindings,
    p1: Seq<GlCommand>,
    b: GlBindings,
    p2: Seq<GlCommand>,
    c: GlBindings,
)
    requires
        keeps_track(a, p1, b),
        keeps_track(b, p2, c),
    ensures
        keeps_track(a, p1 + p2, c),
{
    assert forall|m: GlModel| m.bindings == a implies (#[trigger] run(m, p1 + p2)).bindings == c by {
        lemma_run_append(m, p1, p2);
        assert(run(m, p1).bindings == b);
    }
}

/// A command that binds and deletes nothing.
pub open spec fn binds_nothing(c: GlCommand) -> bool {
    match c {
        GlCommand::BindBuffer { .. } => false,
        GlCommand::UseProgram(..) => false,
        GlCommand::BindTexture { .. } => false,
        GlCommand::BindFramebuffer { .. } => false,
        GlCommand::BindVertexArray(..) => false,
        GlCommand::DeleteBuffer(..) => false,
        GlCommand::DeleteTexture(..) => false,
        GlCommand::DeleteFramebuffer(..) => false,
        GlCommand::DeleteVertexArray(..) => false,
        _ => true,
    }
}

/// Commands that bind and delete nothing leave the bindings as they are.
pub proof fn lemma_keeps_track_neutral(b: GlBindings, cmds: Seq<GlCommand>)
    requires
        forall|i: int| 0 <= i < cmds.len() ==> binds_nothing(#[trigger] cmds[i]),
    ensures
        keeps_track(b, cmds, b),
    decreases cmds.len(),
{
    if cmds.len() > 0 {
        let init = cmds.drop_last();
        assert forall|i: int| 0 <= i < init.len() implies binds_nothing(#[trigger] init[i]) by {
            assert(init[i] == cmds[i]);
        }
        lemma_keeps_track_neutral(b, init);
        assert(binds_nothing(cmds[cmds.len() - 1]));
        assert forall|m: GlModel| m.bindings == b implies (#[trigger] run(m, cmds)).bindings == b by {
            assert(run(m, init).bindings == b);
        }
    }
}

/// A plan of one binding command moves the named binding and no other.
pub proof fn lemma_keeps_track_single(before: GlBindings, c: GlCommand, after: GlBindings)
    requires
        forall|m: GlModel| m.bindings == before ==> (#[trigger] apply(m, c)).bindings == after,
    ensures
        keeps_track(before, seq![c], after),
{
    assert forall|m: GlModel| m.bindings == before implies (#[trigger] run(m, seq![c])).bindings
        == after by {
        lemma_run_single(m, c);
        assert(apply(m, c).bindings == after);
    }
}

/// `filters` with texture `change.0` given the filter `change.1`, if there
/// is a change.
pub open spec fn with_filter(filters: Map<u32, i32>, change: Option<(u32, i32)>) -> Map<u32, i32> {
    match change {
        Some((t, v)) => filters.insert(t, v),
        None => filters,
    }
}

/// Running `cmds` on any context whose bindings are `before` and whose active
/// texture unit is unit 0 keeps unit 0 active and changes the recorded
/// texture filters by `change` alone: the named texture gets the filter in
/// both directions, and every other texture keeps its filters.
pub open spec fn sets_filters(before: GlBindings, cmds: Seq<GlCommand>, change: Option<(u32, i32)>) -> bool {
    forall|m: GlModel|
        m.bindings == before && m.active_texture == TEXTURE0 ==> {
            &&& (#[trigger] run(m, cmds)).active_texture == TEXTURE0
            &&& run(m, cmds).min_filter == with_filter(m.min_filter, change)
            &&& run(m, cmds).mag_filter == with_filter(m.mag_filter, change)
        }
}

/// A command that changes no texture filter and activates no unit but unit 0.
pub open spec fn leaves_filters(c: GlCommand) -> bool {
    match c {
        GlCommand::TexParameterI32 { parameter, .. } => parameter != TEXTURE_MIN_FILTER && parameter
            != TEXTURE_MAG_FILTER,
        GlCommand::ActiveTexture(unit) => unit == TEXTURE0,
        GlCommand::DeleteTexture(..) => false,
        _ => true,
    }
}

/// Commands that bind nothing and leave the filters, run while unit 0 is
/// active, change nothing that the model records.
pub proof fn lemma_run_neutral(m: GlModel, cmds: Seq<GlCommand>)
    requires
        m.active_texture == TEXTURE0,
        forall|i: int| 0 <= i < cmds.len() ==> binds_nothing(#[trigger] cmds[i]) && leaves_filters(cmds[i]),
    ensures
        run(m, cmds) == m,
    decreases cmds.len(),
{
    if cmds.len() > 0 {
        let init = cmds.drop_last();
        assert forall|i: int| 0 <= i < init.len() implies binds_nothing(#[trigger] init[i])
            && leaves_filters(init[i]) by {
            assert(init[i] == cmds[i]);
        }
        lemma_run_neutral(m, init);
        assert(binds_nothing(cmds[cmds.len() - 1]) && leaves_filters(cmds[cmds.len() - 1]));
    }
}

/// Such commands keep track of the bindings and change no filter.
pub proof fn lemma_sets_filters_neutral(b: GlBindings, cmds: Seq<GlCommand>)
    requires
        forall|i: int| 0 <= i < cmds.len() ==> binds_nothing(#[trigger] cmds[i]) && leaves_filters(cmds[i]),
    ensures
        sets_filters(b, cmds, None),
{
    assert forall|m: GlModel| m.bindings == b && m.active_texture == TEXTURE0 implies {
        &&& (#[trigger] run(m, cmds)).active_texture == TEXTURE0
        &&& run(m, cmds).min_filter == with_filter(m.min_filter, None)
        &&& run(m, cmds).mag_filter == with_filter(m.mag_filter, None)
    } by {
        lemma_run_neutral(m, cmds);
    }
}

/// One command's effect on the filters.
pub proof fn lemma_sets_filters_single(before: GlBindings, c: GlCommand, change: Option<(u32, i32)>)
    requires
        forall|m: GlModel|
            m.bindings == before && m.active_texture == TEXTURE0 ==> {
                &&& (#[trigger] apply(m, c)).active_texture == TEXTURE0
                &&& apply(m, c).min_filter == with_filter(m.min_filter, change)
                &&& apply(m, c).mag_filter == with_filter(m.mag_filter, change)
            },
    ensures
        sets_filters(before, seq![c], change),
{
    assert forall|m: GlModel| m.bindings == before && m.active_texture == TEXTURE0 implies {
        &&& (#[trigger] run(m, seq![c])).active_texture == TEXTURE0
        &&& run(m, seq![c]).min_filter == with_filter(m.min_filter, change)
        &&& run(m, seq![c]).mag_filter == with_filter(m.mag_filter, change)
    } by {
        lemma_run_single(m, c);
        assert(apply(m, c).active_texture == TEXTURE0);
    }
}

/// Two commands applied in order.
pub proof fn lemma_run_two(m: GlModel, c0: GlCommand, c1: GlCommand)
    ensures
        run(m, seq![c0, c1]) == apply(apply(m, c0), c1),
{
    lemma_run_append(m, seq![c0], seq![c1]);
    assert(seq![c0] + seq![c1] =~= seq![c0, c1]);
    lemma_run_single(m, c0);
    lemma_run_single(apply(m, c0), c1);
}

/// Law: if one plan keeps track of the bindings from `a` to `b` and changes
/// the filters by `c1`, and a second plan from `b` changes them by `c2`, and
/// at most one of them changes any, running both changes the filters by that
/// one change.
pub proof fn lemma_sets_filters_compose(
    a: GlBindings,
    p1: Seq<GlCommand>,
    b: GlBindings,
    p2: Seq<GlCommand>,
    c1: Option<(u32, i32)>,
    c2: Option<(u32, i32)>,
)
    requires
        keeps_track(a, p1, b),
        sets_filters(a, p1, c1),
        sets_filters(b, p2, c2),
        c1 is None || c2 is None,
    ensures
        sets_filters(a, p1 + p2, if c2 is Some { c2 } else { c1 }),
{
    let c = if c2 is Some { c2 } else { c1 };
    assert forall|m: GlModel| m.bindings == a && m.active_texture == TEXTURE0 implies {
        &&& (#[trigger] run(m, p1 + p2)).active_texture == TEXTURE0
        &&& run(m, p1 + p2).min_filter == with_filter(m.min_filter, c)
        &&& run(m, p1 + p2).mag_filter == with_filter(m.mag_filter, c)
    } by {
        lemma_run_append(m, p1, p2);
        let m1 = run(m, p1);
        assert(m1.bindings == b);
        assert(m1.active_texture == TEXTURE0);
        assert(run(m1, p2).active_texture == TEXTURE0);
    }
}

} // verus!
