//! Frame orchestration: the renderer acquires a frame, hands the
//! application a scoped draw context, and — however the application's
//! drawing went — flushes the batcher and presents exactly once.

use vstd::prelude::*;
use crate::error::RendererError;
use crate::math::{vec2_bounded, Rect, FP_ONE, MAX_COORD, MAX_TEXTURE_DIM};
use crate::stream_render_buffer::{
    empty_batcher, flush_step, stream_step, BatchKey, BatcherView, StreamRenderBuffer, Submission,
};
use crate::surface::{
    apply_pending, forced_rebuild, AcquireOutcome, DeviceNegotiation, PresentOutcome,
    SurfaceFrameManager, SurfaceModel, SurfaceState,
};
use crate::texture::Texture;
use crate::vertex::{Color, UvCoord, Vertex};

verus! {

/// A fully prepared draw: the texture and shader it binds, and its
/// vertex and index data. Index values address `vertices`.
pub struct Renderable {
    pub texture: Texture,
    pub shader_id: u64,
    pub vertices: Vec<Vertex>,
    pub indices: Vec<usize>,
}

/// The batch key a renderable draws under.
pub open spec fn renderable_key(r: Renderable) -> BatchKey {
    BatchKey { texture_id: r.texture.id, shader_id: r.shader_id }
}

/// Whether every index of the renderable addresses one of its own
/// vertices.
pub open spec fn renderable_wf(r: Renderable) -> bool {
    forall|i: int| 0 <= i < r.indices@.len() ==> r.indices@[i] < r.vertices@.len()
}

/// Everything the embedding application must hand to the GPU for one
/// frame: the requested clear color, if any, and the batched
/// submissions in order.
#[derive(Debug)]
pub struct FrameOutput {
    pub clear_color: Option<Color>,
    pub submissions: Vec<Submission>,
}

/// Mathematical image of a [`RenderContext`].
#[verifier::ext_equal]
pub ghost struct ContextModel {
    pub buffer: BatcherView,
    pub clear_color: Option<Color>,
    pub default_shader_id: u64,
    pub white_texture_id: u64,
}

/// The scoped draw context of one render pass.
///
/// It exists only between frame acquisition and presentation, and is
/// handed to the application's draw closure by value; a draw operation
/// therefore cannot outlive its frame. Its consumption by
/// [`Renderer::render`] — not its destruction — triggers the final
/// flush and the presentation.
pub struct RenderContext {
    buffer: StreamRenderBuffer,
    clear_color: Option<Color>,
    default_shader_id: u64,
    white_texture_id: u64,
}

impl View for RenderContext {
    type V = ContextModel;

    closed spec fn view(&self) -> ContextModel {
        ContextModel {
            buffer: self.buffer@,
            clear_color: self.clear_color,
            default_shader_id: self.default_shader_id,
            white_texture_id: self.white_texture_id,
        }
    }
}

/// The four corner vertices of an axis-aligned rectangle filled with
/// one flat color, in the quad order (top-left, bottom-left,
/// bottom-right, top-right). Positions are in fixed-point units cubed,
/// like sprite vertices; the texture coordinates span the renderer's
/// one-texel white texture.
pub open spec fn rect_vertices(rect: Rect, color: Color) -> Seq<Vertex> {
    Seq::new(4, |i: int| Vertex {
        pos: crate::math::Vector2 {
            x: ((rect.location.x + if i == 2 || i == 3 { rect.dimensions.x as int } else { 0 })
                * FP_ONE * FP_ONE) as i64,
            y: ((rect.location.y + if i == 1 || i == 2 { rect.dimensions.y as int } else { 0 })
                * FP_ONE * FP_ONE) as i64,
        },
        uv: UvCoord {
            u_num: if i == 2 || i == 3 { 1u32 } else { 0u32 },
            u_den: 1u32,
            v_num: if i == 1 || i == 2 { 1u32 } else { 0u32 },
            v_den: 1u32,
        },
        color,
    })
}

/// The fixed index pattern of a quad: two triangles over four corner
/// vertices. It never depends on the quad's orientation; only vertex
/// positions change under transforms.
pub open spec fn quad_indices() -> Seq<usize> {
    seq![1usize, 2usize, 0usize, 2usize, 0usize, 3usize]
}

impl RenderContext {
    /// Requests that the frame be cleared to a flat color before its
    /// draws are replayed. The latest request wins; batched draw data
    /// is untouched.
    pub fn clear(&mut self, color: Color) -> (r: Result<(), RendererError>)
        ensures
            r is Ok,
            final(self)@ == (ContextModel { clear_color: Some(color), ..old(self)@ }),
    {
        self.clear_color = Some(color);
        Ok(())
    }

    /// Draws a renderable: one call of the batcher under the
    /// renderable's key. Always succeeds while the context is alive.
    pub fn draw(&mut self, renderable: &Renderable) -> (r: Result<(), RendererError>)
        requires
            renderable_wf(*renderable),
        ensures
            r is Ok,
            final(self)@ == (ContextModel {
                buffer: stream_step(
                    old(self)@.buffer,
                    renderable_key(*renderable),
                    renderable.vertices@,
                    renderable.indices@,
                ),
                ..old(self)@
            }),
    {
        let key = BatchKey::new(renderable.texture.id, renderable.shader_id);
        self.buffer.stream_render(key, &renderable.vertices, &renderable.indices);
        Ok(())
    }

    /// Draws a solid axis-aligned rectangle with the given color: a
    /// quad over the renderer's white texture under the default
    /// shader, batched like any other draw.
    pub fn fill_rect(&mut self, rect: &Rect, color: Color) -> (r: Result<(), RendererError>)
        requires
            vec2_bounded(rect.location, MAX_COORD as int),
            vec2_bounded(rect.dimensions, MAX_COORD as int),
        ensures
            r is Ok,
            final(self)@ == (ContextModel {
                buffer: stream_step(
                    old(self)@.buffer,
                    (BatchKey {
                        texture_id: old(self)@.white_texture_id,
                        shader_id: old(self)@.default_shader_id,
                    }),
                    rect_vertices(*rect, color),
                    quad_indices(),
                ),
                ..old(self)@
            }),
    {
        let x0 = rect.location.x * FP_ONE * FP_ONE;
        let y0 = rect.location.y * FP_ONE * FP_ONE;
        let x1 = (rect.location.x + rect.dimensions.x) * FP_ONE * FP_ONE;
        let y1 = (rect.location.y + rect.dimensions.y) * FP_ONE * FP_ONE;
        let uv00 = UvCoord { u_num: 0, u_den: 1, v_num: 0, v_den: 1 };
        let uv01 = UvCoord { u_num: 0, u_den: 1, v_num: 1, v_den: 1 };
        let uv11 = UvCoord { u_num: 1, u_den: 1, v_num: 1, v_den: 1 };
        let uv10 = UvCoord { u_num: 1, u_den: 1, v_num: 0, v_den: 1 };
        let mut vertices: Vec<Vertex> = Vec::new();
        vertices.push(Vertex { pos: crate::math::Vector2 { x: x0, y: y0 }, uv: uv00, color });
        vertices.push(Vertex { pos: crate::math::Vector2 { x: x0, y: y1 }, uv: uv01, color });
        vertices.push(Vertex { pos: crate::math::Vector2 { x: x1, y: y1 }, uv: uv11, color });
        vertices.push(Vertex { pos: crate::math::Vector2 { x: x1, y: y0 }, uv: uv10, color });
        let mut indices: Vec<usize> = Vec::new();
        indices.push(1);
        indices.push(2);
        indices.push(0);
        indices.push(2);
        indices.push(0);
        indices.push(3);
        proof {
            assert(vertices@ =~= rect_vertices(*rect, color));
            assert(indices@ =~= quad_indices());
        }
        let key = BatchKey::new(self.white_texture_id, self.default_shader_id);
        self.buffer.stream_render(key, &vertices, &indices);
        Ok(())
    }

    /// The shader identifier sprites draw under by default.
    pub fn default_shader_id(&self) -> (id: u64)
        ensures
            id == self@.default_shader_id,
    {
        self.default_shader_id
    }

    /// The identifier of the renderer's one-texel white texture.
    pub fn white_texture_id(&self) -> (id: u64)
        ensures
            id == self@.white_texture_id,
    {
        self.white_texture_id
    }
}

/// Mathematical image of a [`Renderer`].
#[verifier::ext_equal]
pub ghost struct RendererModel {
    pub surface: SurfaceModel,
    pub buffer: BatcherView,
    pub next_texture_id: u64,
    pub default_shader_id: u64,
    pub white_texture_id: u64,
    pub window_id: u64,
}

/// The surface model after one full render pass over `s`: the frame
/// that `s` was about to hand out was acquired and then presented.
pub open spec fn after_pass(s: SurfaceModel) -> SurfaceModel {
    SurfaceModel {
        state: SurfaceState::Configured,
        presents: (s.presents + 1) as u64,
        next_frame_id: (s.next_frame_id + 1) as u64,
        frame_id: s.next_frame_id,
        ..s
    }
}

/// The root object of the rendering core, associated with a single
/// window. It owns the surface/frame lifecycle, the streaming vertex
/// batcher, and the identifier generators for textures.
pub struct Renderer {
    surface: SurfaceFrameManager,
    buffer: StreamRenderBuffer,
    next_texture_id: u64,
    default_shader_id: u64,
    white_texture_id: u64,
    window_id: u64,
}

impl View for Renderer {
    type V = RendererModel;

    closed spec fn view(&self) -> RendererModel {
        RendererModel {
            surface: self.surface@,
            buffer: self.buffer@,
            next_texture_id: self.next_texture_id,
            default_shader_id: self.default_shader_id,
            white_texture_id: self.white_texture_id,
            window_id: self.window_id,
        }
    }
}

impl Renderer {
    /// A renderer for the window with the given identity, with no
    /// surface configured yet. The one-texel white texture used by
    /// `fill_rect` takes identifier 0; application textures are
    /// stamped from 1 upwards. The default sprite shader is shader 0.
    pub fn new(window_id: u64) -> (r: Renderer)
        ensures
            r@.surface == (SurfaceModel {
                state: SurfaceState::Unconfigured,
                width: 0u32,
                height: 0u32,
                pending_resize: None::<(u32, u32)>,
                rebuilds: 0u64,
                presents: 0u64,
                next_frame_id: 0u64,
                frame_id: 0u64,
            }),
            r@.buffer == empty_batcher(),
            r@.next_texture_id == 1u64,
            r@.default_shader_id == 0u64,
            r@.white_texture_id == 0u64,
            r@.window_id == window_id,
    {
        Renderer {
            surface: SurfaceFrameManager::new(),
            buffer: StreamRenderBuffer::new(),
            next_texture_id: 1,
            default_shader_id: 0,
            white_texture_id: 0,
            window_id,
        }
    }

    /// The identity of the window this renderer draws to.
    pub fn window_id(&self) -> (id: u64)
        ensures
            id == self@.window_id,
    {
        self.window_id
    }

    /// Current drawable dimensions in pixels, sizing the projection
    /// from vertex space to clip space.
    pub fn dimensions(&self) -> (d: (u32, u32))
        ensures
            d.0 == self@.surface.width,
            d.1 == self@.surface.height,
    {
        self.surface.viewport_dimensions()
    }

    /// The surface and frame lifecycle state, for inspection.
    pub fn surface(&self) -> (s: &SurfaceFrameManager)
        ensures
            s@ == self@.surface,
    {
        &self.surface
    }

    /// Configures the presentation surface; see
    /// [`SurfaceFrameManager::configure`].
    pub fn configure(
        &mut self,
        width: u32,
        height: u32,
        negotiation: DeviceNegotiation,
    ) -> (r: Result<(), RendererError>)
        requires
            old(self)@.surface.state is Unconfigured,
            0 < width,
            0 < height,
        ensures
            negotiation is Success ==> r is Ok && final(self)@ == (RendererModel {
                surface: SurfaceModel {
                    state: SurfaceState::Configured,
                    width,
                    height,
                    pending_resize: None::<(u32, u32)>,
                    ..old(self)@.surface
                },
                ..old(self)@
            }),
            !(negotiation is Success) ==> r == Err::<(), RendererError>(
                RendererError::DeviceInitError,
            ) && final(self)@ == old(self)@,
    {
        self.surface.configure(width, height, negotiation)
    }

    /// Records a drawable-size change; see
    /// [`SurfaceFrameManager::notify_resized`].
    pub fn notify_resized(&mut self, width: u32, height: u32)
        requires
            !(old(self)@.surface.state is Unconfigured),
        ensures
            final(self)@ == (RendererModel {
                surface: crate::surface::notify_step(old(self)@.surface, width, height),
                ..old(self)@
            }),
    {
        self.surface.notify_resized(width, height);
    }

    /// Registers a GPU-resident image of the given dimensions and
    /// stamps a fresh identifier on it. The embedding application
    /// uploads the pixel data; the identifier, not an address, is what
    /// the batcher keys on.
    pub fn create_texture(&mut self, width: u32, height: u32) -> (t: Texture)
        requires
            0 < width <= MAX_TEXTURE_DIM,
            0 < height <= MAX_TEXTURE_DIM,
            old(self)@.next_texture_id < u64::MAX,
        ensures
            t == (Texture { width, height, id: old(self)@.next_texture_id }),
            final(self)@ == (RendererModel {
                next_texture_id: (old(self)@.next_texture_id + 1) as u64,
                ..old(self)@
            }),
    {
        let id = self.next_texture_id;
        self.next_texture_id = id + 1;
        Texture::new(width, height, id)
    }

    /// Runs one render pass: acquires a frame (retrying once after a
    /// forced swapchain rebuild if the platform reported the surface
    /// lost), hands the application's closure a scoped draw context,
    /// and — whether the closure reported success or failure — flushes
    /// the batcher and presents the frame exactly once.
    ///
    /// Returns the closure's value together with the frame's GPU work,
    /// or the closure's error, or
    /// [`RendererError::PresentationError`] when the closure succeeded
    /// but the platform rejected the presentation, or
    /// [`RendererError::FrameAcquisitionError`] when both acquisition
    /// attempts failed — in which case the closure never ran and
    /// nothing was presented. On every path the surface ends
    /// configured, with no frame outstanding, safe to retry at the
    /// next tick.
    pub fn render<R, F: FnOnce(RenderContext) -> (RenderContext, Result<R, RendererError>)>(
        &mut self,
        acquire: AcquireOutcome,
        retry: AcquireOutcome,
        present_outcome: PresentOutcome,
        f: F,
    ) -> (r: Result<(R, FrameOutput), RendererError>)
        requires
            old(self)@.surface.state is Configured,
            old(self)@.surface.rebuilds < u64::MAX - 2,
            old(self)@.surface.next_frame_id < u64::MAX,
            old(self)@.surface.presents < u64::MAX,
            forall|c: RenderContext| call_requires(f, (c,)),
        ensures
            final(self)@.surface.state is Configured,
            final(self)@.next_texture_id == old(self)@.next_texture_id,
            final(self)@.default_shader_id == old(self)@.default_shader_id,
            final(self)@.white_texture_id == old(self)@.white_texture_id,
            final(self)@.window_id == old(self)@.window_id,
            acquire is SurfaceLost && retry is SurfaceLost ==> r == Err::<
                (R, FrameOutput),
                RendererError,
            >(RendererError::FrameAcquisitionError) && final(self)@ == (RendererModel {
                surface: forced_rebuild(apply_pending(old(self)@.surface)),
                ..old(self)@
            }),
            acquire is Acquired ==> final(self)@.surface == after_pass(
                apply_pending(old(self)@.surface),
            ),
            acquire is SurfaceLost && retry is Acquired ==> final(self)@.surface == after_pass(
                forced_rebuild(apply_pending(old(self)@.surface)),
            ),
            !(acquire is SurfaceLost && retry is SurfaceLost) ==> final(self)@.surface.presents
                == old(self)@.surface.presents + 1 && final(self)@.buffer
                == empty_batcher() && exists|
                ctx_in: RenderContext,
                ctx_out: RenderContext,
                cr: Result<R, RendererError>,
            |
                {
                    &&& ctx_in@ == (ContextModel {
                        buffer: empty_batcher(),
                        clear_color: None::<Color>,
                        default_shader_id: old(self)@.default_shader_id,
                        white_texture_id: old(self)@.white_texture_id,
                    })
                    &&& #[trigger] call_ensures(f, (ctx_in,), (ctx_out, cr))
                    &&& (cr is Err ==> r == Err::<(R, FrameOutput), RendererError>(cr->Err_0))
                    &&& (cr is Ok && present_outcome is Displayed ==> r is Ok && r->Ok_0.0
                        == cr->Ok_0 && r->Ok_0.1.submissions@.map_values(|s: Submission| s@)
                        == flush_step(ctx_out@.buffer).submissions && r->Ok_0.1.clear_color
                        == ctx_out@.clear_color)
                    &&& (cr is Ok && present_outcome is Rejected ==> r == Err::<
                        (R, FrameOutput),
                        RendererError,
                    >(RendererError::PresentationError))
                },
    {
        let frame = match self.surface.acquire_frame(acquire) {
            Ok(fr) => fr,
            Err(_) => {
                self.surface.force_rebuild();
                match self.surface.acquire_frame(retry) {
                    Ok(fr) => fr,
                    Err(e) => {
                        return Err(e);
                    }
                }
            }
        };
        self.buffer.begin_frame();
        let mut pass_buffer = StreamRenderBuffer::new();
        core::mem::swap(&mut pass_buffer, &mut self.buffer);
        let ctx = RenderContext {
            buffer: pass_buffer,
            clear_color: None,
            default_shader_id: self.default_shader_id,
            white_texture_id: self.white_texture_id,
        };
        let ghost ctx_ghost = ctx;
        let f_out = f(ctx);
        let ghost f_out_ghost = f_out;
        let (mut ctx_out, closure_result) = f_out;
        ctx_out.buffer.flush();
        let submissions = ctx_out.buffer.take_submissions();
        let clear_color = ctx_out.clear_color;
        core::mem::swap(&mut self.buffer, &mut ctx_out.buffer);
        self.buffer.begin_frame();
        let present_result = self.surface.present(frame, present_outcome);
        proof {
            assert(self.buffer@ =~~= empty_batcher());
            assert(ctx_ghost@ =~~= (ContextModel {
                buffer: empty_batcher(),
                clear_color: None::<Color>,
                default_shader_id: old(self)@.default_shader_id,
                white_texture_id: old(self)@.white_texture_id,
            }));
            assert(call_ensures(f, (ctx_ghost,), (f_out_ghost.0, f_out_ghost.1)));
        }
        match closure_result {
            Err(e) => Err(e),
            Ok(value) => match present_result {
                Err(e) => Err(e),
                Ok(()) => Ok((value, FrameOutput { clear_color, submissions })),
            },
        }
    }
}

} // verus!
