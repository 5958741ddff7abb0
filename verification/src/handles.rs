//! The GL objects that the device hands out. Each holds the object's GL name
//! and what the device needs to know of it; two handles are equal when they
//! name the same object. Releasing a handle yields the call that deletes the
//! object.
use vstd::prelude::*;
use vstd::std_specs::cmp::PartialEqSpecImpl;
use crate::gl::GlCommand;
use crate::types::FilterMode;

verus! {

/// A vertex buffer: `count` floats, laid out in vertices of `stride` floats.
#[derive(Debug)]
pub struct GLVertexBuffer {
    id: u32,
    count: usize,
    stride: usize,
}

/// An index buffer of `count` 32-bit indices.
#[derive(Debug)]
pub struct GLIndexBuffer {
    id: u32,
    count: usize,
}

/// A linked shader program.
#[derive(Debug)]
pub struct GLProgram {
    id: u32,
}

/// A 2D RGBA texture of `width` by `height` pixels.
#[derive(Debug)]
pub struct GLTexture {
    id: u32,
    width: i32,
    height: i32,
    filter_mode: FilterMode,
}

/// A framebuffer.
#[derive(Debug)]
pub struct GLFramebuffer {
    id: u32,
}

impl GLVertexBuffer {
    pub closed spec fn spec_id(&self) -> u32 {
        self.id
    }

    pub closed spec fn spec_count(&self) -> usize {
        self.count
    }

    pub closed spec fn spec_stride(&self) -> usize {
        self.stride
    }

    pub(crate) fn new(id: u32, count: usize, stride: usize) -> (b: Self)
        ensures
            b.spec_id() == id,
            b.spec_count() == count,
            b.spec_stride() == stride,
    {
        GLVertexBuffer { id, count, stride }
    }

    /// The buffer's GL name.
    pub fn id(&self) -> (r: u32)
        ensures
            r == self.spec_id(),
    {
        self.id
    }

    /// How many floats the buffer holds.
    pub fn count(&self) -> (r: usize)
        ensures
            r == self.spec_count(),
    {
        self.count
    }

    /// How many floats make up one vertex.
    pub fn stride(&self) -> (r: usize)
        ensures
            r == self.spec_stride(),
    {
        self.stride
    }

    /// The call that deletes the buffer.
    pub fn delete_command(&self) -> (c: GlCommand)
        ensures
            c == GlCommand::DeleteBuffer(self.spec_id()),
    {
        GlCommand::DeleteBuffer(self.id)
    }
}

impl GLIndexBuffer {
    pub closed spec fn spec_id(&self) -> u32 {
        self.id
    }

    pub closed spec fn spec_count(&self) -> usize {
        self.count
    }

    pub(crate) fn new(id: u32, count: usize) -> (b: Self)
        ensures
            b.spec_id() == id,
            b.spec_count() == count,
    {
        GLIndexBuffer { id, count }
    }

    /// The buffer's GL name.
    pub fn id(&self) -> (r: u32)
        ensures
            r == self.spec_id(),
    {
        self.id
    }

    /// How many indices the buffer holds.
    pub fn count(&self) -> (r: usize)
        ensures
            r == self.spec_count(),
    {
        self.count
    }

    /// The call that deletes the buffer.
    pub fn delete_command(&self) -> (c: GlCommand)
        ensures
            c == GlCommand::DeleteBuffer(self.spec_id()),
    {
        GlCommand::DeleteBuffer(self.id)
    }
}

impl GLProgram {
    pub closed spec fn spec_id(&self) -> u32 {
        self.id
    }

    pub(crate) fn new(id: u32) -> (p: Self)
        ensures
            p.spec_id() == id,
    {
        GLProgram { id }
    }

    /// The program's GL name.
    pub fn id(&self) -> (r: u32)
        ensures
            r == self.spec_id(),
    {
        self.id
    }

    /// The call that deletes the program.
    pub fn delete_command(&self) -> (c: GlCommand)
        ensures
            c == GlCommand::DeleteProgram(self.spec_id()),
    {
        GlCommand::DeleteProgram(self.id)
    }
}

impl GLTexture {
    pub closed spec fn spec_id(&self) -> u32 {
        self.id
    }

    pub closed spec fn spec_width(&self) -> i32 {
        self.width
    }

    pub closed spec fn spec_height(&self) -> i32 {
        self.height
    }

    pub closed spec fn spec_filter_mode(&self) -> FilterMode {
        self.filter_mode
    }

    pub(crate) fn new(id: u32, width: i32, height: i32, filter_mode: FilterMode) -> (t: Self)
        ensures
            t.spec_id() == id,
            t.spec_width() == width,
            t.spec_height() == height,
            t.spec_filter_mode() == filter_mode,
    {
        GLTexture { id, width, height, filter_mode }
    }

    pub(crate) fn set_filter_mode(&mut self, filter_mode: FilterMode)
        ensures
            final(self).spec_id() == old(self).spec_id(),
            final(self).spec_width() == old(self).spec_width(),
            final(self).spec_height() == old(self).spec_height(),
            final(self).spec_filter_mode() == filter_mode,
    {
        self.filter_mode = filter_mode;
    }

    /// The texture's GL name.
    pub fn id(&self) -> (r: u32)
        ensures
            r == self.spec_id(),
    {
        self.id
    }

    pub fn width(&self) -> (r: i32)
        ensures
            r == self.spec_width(),
    {
        self.width
    }

    pub fn height(&self) -> (r: i32)
        ensures
            r == self.spec_height(),
    {
        self.height
    }

    pub fn filter_mode(&self) -> (r: FilterMode)
        ensures
            r == self.spec_filter_mode(),
    {
        self.filter_mode
    }

    /// The call that deletes the texture.
    pub fn delete_command(&self) -> (c: GlCommand)
        ensures
            c == GlCommand::DeleteTexture(self.spec_id()),
    {
        GlCommand::DeleteTexture(self.id)
    }
}

impl GLFramebuffer {
    pub closed spec fn spec_id(&self) -> u32 {
        self.id
    }

    pub(crate) fn new(id: u32) -> (f: Self)
        ensures
            f.spec_id() == id,
    {
        GLFramebuffer { id }
    }

    /// The framebuffer's GL name.
    pub fn id(&self) -> (r: u32)
        ensures
            r == self.spec_id(),
    {
        self.id
    }

    /// The call that deletes the framebuffer.
    pub fn delete_command(&self) -> (c: GlCommand)
        ensures
            c == GlCommand::DeleteFramebuffer(self.spec_id()),
    {
        GlCommand::DeleteFramebuffer(self.id)
    }
}

impl PartialEq for GLVertexBuffer {
    fn eq(&self, other: &GLVertexBuffer) -> (r: bool) {
        self.id == other.id
    }
}

impl PartialEqSpecImpl for GLVertexBuffer {
    open spec fn obeys_eq_spec() -> bool {
        true
    }

    open spec fn eq_spec(&self, other: &GLVertexBuffer) -> bool {
        self.spec_id() == other.spec_id()
    }
}

impl PartialEq for GLIndexBuffer {
    fn eq(&self, other: &GLIndexBuffer) -> (r: bool) {
        self.id == other.id
    }
}

impl PartialEqSpecImpl for GLIndexBuffer {
    open spec fn obeys_eq_spec() -> bool {
        true
    }

    open spec fn eq_spec(&self, other: &GLIndexBuffer) -> bool {
        self.spec_id() == other.spec_id()
    }
}

impl PartialEq for GLProgram {
    fn eq(&self, other: &GLProgram) -> (r: bool) {
        self.id == other.id
    }
}

impl PartialEqSpecImpl for GLProgram {
    open spec fn obeys_eq_spec() -> bool {
        true
    }

    open spec fn eq_spec(&self, other: &GLProgram) -> bool {
        self.spec_id() == other.spec_id()
    }
}

impl PartialEq for GLTexture {
    fn eq(&self, other: &GLTexture) -> (r: bool) {
        self.id == other.id
    }
}

impl PartialEqSpecImpl for GLTexture {
    open spec fn obeys_eq_spec() -> bool {
        true
    }

    open spec fn eq_spec(&self, other: &GLTexture) -> bool {
        self.spec_id() == other.spec_id()
    }
}

impl PartialEq for GLFramebuffer {
    fn eq(&self, other: &GLFramebuffer) -> (r: bool) {
        self.id == other.id
    }
}

impl PartialEqSpecImpl for GLFramebuffer {
    open spec fn obeys_eq_spec() -> bool {
        true
    }

    open spec fn eq_spec(&self, other: &GLFramebuffer) -> bool {
        self.spec_id() == other.spec_id()
    }
}

} // verus!
