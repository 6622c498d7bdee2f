//! The render context.
//!
//! The library records every device operation as a [`RenderCommand`] instead
//! of talking to a graphics backend directly. The host drains the command
//! list each frame and replays it against the real device; everything the
//! library decides — allocation of handles, frame bracketing, the viewport
//! transform and the exact order of draws — is verified here.

pub mod vertex;

use vstd::prelude::*;
use crate::math::color::Color;
use crate::math::fixed::{Fx, fx_of, fx_div, FX_SCALE};
use crate::math::matrix::Matrix;
use crate::math::point::{Pt2, Pt2i};
use crate::math::transform::Transform;
use crate::gl::vertex::Vertex;

verus! {

/// Handle of a shader owned by the render context.
#[derive(Clone, Copy, PartialEq, Eq, Structural, Debug)]
pub struct ShaderId(pub u64);

/// Handle of a vertex or index buffer owned by the render context.
#[derive(Clone, Copy, PartialEq, Eq, Structural, Debug)]
pub struct BufferId(pub u64);

/// Handle of a texture owned by the render context.
#[derive(Clone, Copy, PartialEq, Eq, Structural, Debug)]
pub struct TextureId(pub u64);

/// The resources a draw call reads: vertex buffers, an index buffer and
/// textures.
#[derive(Clone, PartialEq, Debug)]
pub struct Bindings {
    pub vertex_buffers: Vec<BufferId>,
    pub index_buffer: BufferId,
    pub images: Vec<TextureId>,
}

/// Mathematical image of [`Bindings`].
#[verifier::ext_equal]
pub struct BindingsView {
    pub vertex_buffers: Seq<BufferId>,
    pub index_buffer: BufferId,
    pub images: Seq<TextureId>,
}

impl View for Bindings {
    type V = BindingsView;

    open spec fn view(&self) -> BindingsView {
        BindingsView {
            vertex_buffers: self.vertex_buffers@,
            index_buffer: self.index_buffer,
            images: self.images@,
        }
    }
}

impl Bindings {
    /// A copy of these bindings, with the same handles.
    pub fn duplicate(&self) -> (r: Bindings)
        ensures
            r@ == self@,
    {
        let r = Bindings {
            vertex_buffers: self.vertex_buffers.clone(),
            index_buffer: self.index_buffer,
            images: self.images.clone(),
        };
        proof {
            assert(r.vertex_buffers@ =~= self.vertex_buffers@);
            assert(r.images@ =~= self.images@);
            assert(r@ =~= self@);
        }
        r
    }
}

/// One operation for the host to replay against the graphics device, in
/// the order recorded.
#[derive(Clone, PartialEq, Debug)]
pub enum RenderCommand {
    /// Compile the default quad shader and pipeline under this handle.
    CreateDefaultShader { shader: ShaderId },
    /// Compile a shader from the given sources under this handle.
    CreateShader { shader: ShaderId, vertex: String, fragment: String, metal: String },
    /// Upload an RGBA texture under this handle.
    CreateTexture { texture: TextureId, width: u32, height: u32, bytes: Vec<u8> },
    /// Allocate a streamed vertex buffer for this many vertices.
    CreateVertexBuffer { buffer: BufferId, size: usize },
    /// Allocate a streamed index buffer for this many indices.
    CreateIndexBuffer { buffer: BufferId, size: usize },
    /// Allocate the immutable quad index buffer holding `0 1 2 0 2 3`.
    CreateQuadIndexBuffer { buffer: BufferId },
    /// Refresh a vertex buffer with these vertices.
    UpdateVertexBuffer { buffer: BufferId, vertices: Vec<Vertex> },
    /// Start a render pass clearing to this color.
    BeginFrame { color: Color },
    /// Submit the pass and present the frame.
    EndFrame,
    /// Bind the default pipeline and the given resources, then issue an
    /// indexed draw call.
    DrawIndexed { bindings: Bindings, num_indices: i32 },
}

/// Mathematical image of [`RenderCommand`].
#[verifier::ext_equal]
pub enum RenderCommandView {
    CreateDefaultShader { shader: ShaderId },
    CreateShader { shader: ShaderId, vertex: Seq<char>, fragment: Seq<char>, metal: Seq<char> },
    CreateTexture { texture: TextureId, width: u32, height: u32, bytes: Seq<u8> },
    CreateVertexBuffer { buffer: BufferId, size: usize },
    CreateIndexBuffer { buffer: BufferId, size: usize },
    CreateQuadIndexBuffer { buffer: BufferId },
    UpdateVertexBuffer { buffer: BufferId, vertices: Seq<Vertex> },
    BeginFrame { color: Color },
    EndFrame,
    DrawIndexed { bindings: BindingsView, num_indices: i32 },
}

impl View for RenderCommand {
    type V = RenderCommandView;

    open spec fn view(&self) -> RenderCommandView {
        match self {
            RenderCommand::CreateDefaultShader { shader } => RenderCommandView::CreateDefaultShader {
                shader: *shader,
            },
            RenderCommand::CreateShader { shader, vertex, fragment, metal } => RenderCommandView::CreateShader {
                shader: *shader,
                vertex: vertex@,
                fragment: fragment@,
                metal: metal@,
            },
            RenderCommand::CreateTexture { texture, width, height, bytes } => RenderCommandView::CreateTexture {
                texture: *texture,
                width: *width,
                height: *height,
                bytes: bytes@,
            },
            RenderCommand::CreateVertexBuffer { buffer, size } => RenderCommandView::CreateVertexBuffer {
                buffer: *buffer,
                size: *size,
            },
            RenderCommand::CreateIndexBuffer { buffer, size } => RenderCommandView::CreateIndexBuffer {
                buffer: *buffer,
                size: *size,
            },
            RenderCommand::CreateQuadIndexBuffer { buffer } => RenderCommandView::CreateQuadIndexBuffer {
                buffer: *buffer,
            },
            RenderCommand::UpdateVertexBuffer { buffer, vertices } => RenderCommandView::UpdateVertexBuffer {
                buffer: *buffer,
                vertices: vertices@,
            },
            RenderCommand::BeginFrame { color } => RenderCommandView::BeginFrame { color: *color },
            RenderCommand::EndFrame => RenderCommandView::EndFrame,
            RenderCommand::DrawIndexed { bindings, num_indices } => RenderCommandView::DrawIndexed {
                bindings: bindings@,
                num_indices: *num_indices,
            },
        }
    }
}

/// The viewport transform for a window of the given pixel size: it maps
/// pixel coordinates, with the origin at the top left corner, onto
/// normalized device coordinates.
pub open spec fn viewport_of(size: Pt2i) -> Transform {
    Transform {
        mat: Matrix {
            col0: Pt2 {
                x: fx_div(fx_of(2 * (FX_SCALE as int)), fx_of(size.x * (FX_SCALE as int))),
                y: Fx { raw: 0 },
            },
            col1: Pt2 {
                x: Fx { raw: 0 },
                y: fx_div(fx_of(-2 * (FX_SCALE as int)), fx_of(size.y * (FX_SCALE as int))),
            },
        },
        offset: Pt2 { x: fx_of(-(FX_SCALE as int)), y: fx_of(FX_SCALE as int) },
        pivot: Pt2 { x: Fx { raw: 0 }, y: Fx { raw: 0 } },
    }
}

/// A handle counter advanced by one, stopping at the largest value.
pub open spec fn bump(x: u64) -> u64 {
    if x < u64::MAX {
        (x + 1) as u64
    } else {
        u64::MAX
    }
}

/// The render context: allocates handles, caches the viewport transform and
/// records the frame's device operations.
pub struct GraphicsContext {
    /// Device operations recorded and not yet drained by the host.
    pub commands: Vec<RenderCommand>,
    /// Handle of the default quad shader.
    pub default_shader: ShaderId,
    /// Handle of the shared immutable quad index buffer.
    pub indices_square: BufferId,
    /// Next unused shader handle.
    pub next_shader: u64,
    /// Next unused buffer handle.
    pub next_buffer: u64,
    /// Next unused texture handle.
    pub next_texture: u64,
    /// The window size last reported by the host.
    pub window_size: Pt2i,
    /// The window size the cached viewport transform was computed for.
    pub viewport_size: Pt2i,
    /// The cached viewport transform.
    pub viewport: Transform,
    /// Whether a render pass is open.
    pub in_frame: bool,
}

impl GraphicsContext {
    /// The recorded device operations, as mathematical values.
    pub open spec fn log(self) -> Seq<RenderCommandView> {
        self.commands@.map_values(|c: RenderCommand| c@)
    }

    /// Well-formedness: the window has positive size and the cached
    /// viewport transform belongs to the size it was computed for.
    pub open spec fn wf(self) -> bool {
        &&& self.window_size.x > 0
        &&& self.window_size.y > 0
        &&& self.viewport_size.x > 0
        &&& self.viewport_size.y > 0
        &&& self.viewport == viewport_of(self.viewport_size)
    }

    /// The context's state apart from its command log and viewport cache:
    /// handle counters, window size and frame bracket.
    pub open spec fn same_handles(self, other: Self) -> bool {
        &&& self.default_shader == other.default_shader
        &&& self.indices_square == other.indices_square
        &&& self.next_shader == other.next_shader
        &&& self.next_buffer == other.next_buffer
        &&& self.next_texture == other.next_texture
    }

    /// A fresh render context for a window of the given size. Records the
    /// creation of the default shader and of the shared quad index buffer.
    pub fn new(window_size: Pt2i) -> (r: Self)
        requires
            window_size.x > 0,
            window_size.y > 0,
        ensures
            r.wf(),
            r.log() =~= seq![
                RenderCommandView::CreateDefaultShader { shader: ShaderId(0) },
                RenderCommandView::CreateQuadIndexBuffer { buffer: BufferId(0) },
            ],
            r.default_shader == ShaderId(0),
            r.indices_square == BufferId(0),
            r.next_shader == 1,
            r.next_buffer == 1,
            r.next_texture == 0,
            r.window_size == window_size,
            r.viewport_size == window_size,
            r.viewport == viewport_of(window_size),
            !r.in_frame,
    {
        let mut commands: Vec<RenderCommand> = Vec::new();
        commands.push(RenderCommand::CreateDefaultShader { shader: ShaderId(0) });
        commands.push(RenderCommand::CreateQuadIndexBuffer { buffer: BufferId(0) });
        let viewport = Self::compute_viewport(window_size);
        GraphicsContext {
            commands,
            default_shader: ShaderId(0),
            indices_square: BufferId(0),
            next_shader: 1,
            next_buffer: 1,
            next_texture: 0,
            window_size,
            viewport_size: window_size,
            viewport,
            in_frame: false,
        }
    }

    /// The viewport transform for the given window size.
    fn compute_viewport(size: Pt2i) -> (r: Transform)
        requires
            size.x > 0,
            size.y > 0,
        ensures
            r == viewport_of(size),
    {
        proof {
            assert(0 < size.x * (FX_SCALE as int) <= i64::MAX
                && 0 < size.y * (FX_SCALE as int) <= i64::MAX) by (nonlinear_arith)
                requires
                    0 < size.x <= i32::MAX,
                    0 < size.y <= i32::MAX,
                    FX_SCALE == 65536,
            ;
        }
        let w = Fx::from_int(size.x as i64);
        let h = Fx::from_int(size.y as i64);
        let sx = Fx::from_int(2).div(w);
        let sy = Fx::from_int(-2).div(h);
        Transform::new(
            Matrix::from_rows(Pt2::new(sx, Fx::zero()), Pt2::new(Fx::zero(), sy)),
            Pt2::new(Fx::from_int(-1), Fx::from_int(1)),
            Pt2::zero(),
        )
    }

    /// Record the window size the host reports. The cached viewport
    /// transform is not touched; the next [`Self::viewport_transform`]
    /// call refreshes it if the size changed.
    pub fn set_window_size(&mut self, size: Pt2i)
        requires
            size.x > 0,
            size.y > 0,
            old(self).wf(),
        ensures
            final(self).wf(),
            final(self).window_size == size,
            final(self).commands == old(self).commands,
            final(self).viewport_size == old(self).viewport_size,
            final(self).viewport == old(self).viewport,
            final(self).in_frame == old(self).in_frame,
            final(self).same_handles(*old(self)),
    {
        self.window_size = size;
    }

    /// The pixel-to-normalized-device-coordinate transform for the current
    /// window size. Recomputed and cached only when the window size differs
    /// from the size the cache was built for; with no resize in between,
    /// a second call returns the identical cached transform and leaves the
    /// context untouched.
    pub fn viewport_transform(&mut self) -> (r: Transform)
        requires
            old(self).wf(),
        ensures
            final(self).wf(),
            r == viewport_of(old(self).window_size),
            final(self).viewport == r,
            final(self).viewport_size == old(self).window_size,
            final(self).window_size == old(self).window_size,
            final(self).commands == old(self).commands,
            final(self).in_frame == old(self).in_frame,
            final(self).same_handles(*old(self)),
            old(self).viewport_size == old(self).window_size ==> *final(self) == *old(self),
    {
        if self.window_size.x != self.viewport_size.x || self.window_size.y != self.viewport_size.y {
            self.viewport = Self::compute_viewport(self.window_size);
            self.viewport_size = self.window_size;
        }
        self.viewport
    }

    /// Handle of the shared immutable quad index buffer.
    pub fn indices_square(&self) -> (r: BufferId)
        ensures
            r == self.indices_square,
    {
        self.indices_square
    }

    /// Allocate a streamed vertex buffer for `size` vertices under a fresh
    /// handle, and record its creation.
    pub fn create_vertex_buffer(&mut self, size: usize) -> (r: BufferId)
        requires
            old(self).wf(),
        ensures
            final(self).wf(),
            r == BufferId(old(self).next_buffer),
            final(self).next_buffer == bump(old(self).next_buffer),
            final(self).log() =~= old(self).log().push(
                RenderCommandView::CreateVertexBuffer { buffer: r, size },
            ),
            final(self).next_shader == old(self).next_shader,
            final(self).next_texture == old(self).next_texture,
            final(self).default_shader == old(self).default_shader,
            final(self).indices_square == old(self).indices_square,
            final(self).window_size == old(self).window_size,
            final(self).viewport_size == old(self).viewport_size,
            final(self).viewport == old(self).viewport,
            final(self).in_frame == old(self).in_frame,
    {
        let id = BufferId(self.next_buffer);
        self.next_buffer = if self.next_buffer < u64::MAX {
            self.next_buffer + 1
        } else {
            u64::MAX
        };
        self.commands.push(RenderCommand::CreateVertexBuffer { buffer: id, size });
        id
    }

    /// Allocate a streamed index buffer for `size` indices under a fresh
    /// handle, and record its creation.
    pub fn create_index_buffer(&mut self, size: usize) -> (r: BufferId)
        requires
            old(self).wf(),
        ensures
            final(self).wf(),
            r == BufferId(old(self).next_buffer),
            final(self).next_buffer == bump(old(self).next_buffer),
            final(self).log() =~= old(self).log().push(
                RenderCommandView::CreateIndexBuffer { buffer: r, size },
            ),
            final(self).next_shader == old(self).next_shader,
            final(self).next_texture == old(self).next_texture,
            final(self).default_shader == old(self).default_shader,
            final(self).indices_square == old(self).indices_square,
            final(self).window_size == old(self).window_size,
            final(self).viewport_size == old(self).viewport_size,
            final(self).viewport == old(self).viewport,
            final(self).in_frame == old(self).in_frame,
    {
        let id = BufferId(self.next_buffer);
        self.next_buffer = if self.next_buffer < u64::MAX {
            self.next_buffer + 1
        } else {
            u64::MAX
        };
        self.commands.push(RenderCommand::CreateIndexBuffer { buffer: id, size });
        id
    }

    /// Upload an image as a static texture under a fresh handle, and
    /// record the upload.
    pub fn create_texture(&mut self, image: &crate::game::assets::texture::Image) -> (r: TextureId)
        requires
            old(self).wf(),
        ensures
            final(self).wf(),
            r == TextureId(old(self).next_texture),
            final(self).next_texture == bump(old(self).next_texture),
            final(self).log() =~= old(self).log().push(
                RenderCommandView::CreateTexture {
                    texture: r,
                    width: image.width,
                    height: image.height,
                    bytes: image.bytes@,
                },
            ),
            final(self).next_shader == old(self).next_shader,
            final(self).next_buffer == old(self).next_buffer,
            final(self).default_shader == old(self).default_shader,
            final(self).indices_square == old(self).indices_square,
            final(self).window_size == old(self).window_size,
            final(self).viewport_size == old(self).viewport_size,
            final(self).viewport == old(self).viewport,
            final(self).in_frame == old(self).in_frame,
    {
        let id = TextureId(self.next_texture);
        self.next_texture = if self.next_texture < u64::MAX {
            self.next_texture + 1
        } else {
            u64::MAX
        };
        let bytes = image.bytes.clone();
        proof {
            assert(bytes@ =~= image.bytes@);
        }
        self.commands.push(RenderCommand::CreateTexture {
            texture: id,
            width: image.width,
            height: image.height,
            bytes,
        });
        id
    }

    /// Compile a shader from the given sources under a fresh handle, and
    /// record its creation.
    pub fn create_shader(&mut self, vertex: String, fragment: String, metal: String) -> (r: ShaderId)
        requires
            old(self).wf(),
        ensures
            final(self).wf(),
            r == ShaderId(old(self).next_shader),
            final(self).next_shader == bump(old(self).next_shader),
            final(self).log() =~= old(self).log().push(
                RenderCommandView::CreateShader {
                    shader: r,
                    vertex: vertex@,
                    fragment: fragment@,
                    metal: metal@,
                },
            ),
            final(self).next_buffer == old(self).next_buffer,
            final(self).next_texture == old(self).next_texture,
            final(self).default_shader == old(self).default_shader,
            final(self).indices_square == old(self).indices_square,
            final(self).window_size == old(self).window_size,
            final(self).viewport_size == old(self).viewport_size,
            final(self).viewport == old(self).viewport,
            final(self).in_frame == old(self).in_frame,
    {
        let id = ShaderId(self.next_shader);
        self.next_shader = if self.next_shader < u64::MAX {
            self.next_shader + 1
        } else {
            u64::MAX
        };
        self.commands.push(RenderCommand::CreateShader { shader: id, vertex, fragment, metal });
        id
    }

    /// Refresh a previously created vertex buffer with the given vertices,
    /// and record the refresh.
    pub fn update_buffer(&mut self, buffer: BufferId, vertices: Vec<Vertex>)
        requires
            old(self).wf(),
        ensures
            final(self).wf(),
            final(self).log() =~= old(self).log().push(
                RenderCommandView::UpdateVertexBuffer { buffer, vertices: vertices@ },
            ),
            final(self).window_size == old(self).window_size,
            final(self).viewport_size == old(self).viewport_size,
            final(self).viewport == old(self).viewport,
            final(self).in_frame == old(self).in_frame,
            final(self).same_handles(*old(self)),
    {
        self.commands.push(RenderCommand::UpdateVertexBuffer { buffer, vertices });
    }

    /// Start a render pass clearing to the given color. Must be paired
    /// with [`Self::finish`]; passes do not nest.
    pub fn start_frame(&mut self, color: Color)
        requires
            old(self).wf(),
            !old(self).in_frame,
        ensures
            final(self).wf(),
            final(self).in_frame,
            final(self).log() =~= old(self).log().push(RenderCommandView::BeginFrame { color }),
            final(self).window_size == old(self).window_size,
            final(self).viewport_size == old(self).viewport_size,
            final(self).viewport == old(self).viewport,
            final(self).same_handles(*old(self)),
    {
        self.in_frame = true;
        self.commands.push(RenderCommand::BeginFrame { color });
    }

    /// Submit the open render pass and present the frame.
    pub fn finish(&mut self)
        requires
            old(self).wf(),
            old(self).in_frame,
        ensures
            final(self).wf(),
            !final(self).in_frame,
            final(self).log() =~= old(self).log().push(RenderCommandView::EndFrame),
            final(self).window_size == old(self).window_size,
            final(self).viewport_size == old(self).viewport_size,
            final(self).viewport == old(self).viewport,
            final(self).same_handles(*old(self)),
    {
        self.in_frame = false;
        self.commands.push(RenderCommand::EndFrame);
    }

    /// Bind the default pipeline and the given resources and issue an
    /// indexed draw call. Only legal inside an open render pass.
    pub fn draw(&mut self, bindings: &Bindings, num_indices: i32)
        requires
            old(self).wf(),
            old(self).in_frame,
        ensures
            final(self).wf(),
            final(self).in_frame,
            final(self).log() =~= old(self).log().push(
                RenderCommandView::DrawIndexed { bindings: bindings@, num_indices },
            ),
            final(self).window_size == old(self).window_size,
            final(self).viewport_size == old(self).viewport_size,
            final(self).viewport == old(self).viewport,
            final(self).same_handles(*old(self)),
    {
        self.commands.push(
            RenderCommand::DrawIndexed { bindings: bindings.duplicate(), num_indices },
        );
    }

    /// Hand the recorded operations to the host for replay and clear the
    /// list.
    pub fn take_commands(&mut self) -> (r: Vec<RenderCommand>)
        ensures
            r@.map_values(|c: RenderCommand| c@) == old(self).log(),
            final(self).log() =~= Seq::<RenderCommandView>::empty(),
            final(self).window_size == old(self).window_size,
            final(self).viewport_size == old(self).viewport_size,
            final(self).viewport == old(self).viewport,
            final(self).in_frame == old(self).in_frame,
            final(self).same_handles(*old(self)),
            old(self).wf() ==> final(self).wf(),
    {
        let mut out: Vec<RenderCommand> = Vec::new();
        core::mem::swap(&mut out, &mut self.commands);
        out
    }
}

} // verus!
