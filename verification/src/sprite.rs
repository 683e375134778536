//! Sprites and vertex generation: converting one draw request into
//! four vertices and a fixed quad index pattern, respecting pivot,
//! rotation, non-uniform scale and texture-atlas UV mapping.

use vstd::prelude::*;
use crate::error::RendererError;
use crate::math::{
    rotation_bounded, vec2_bounded, Rotation, SourceRect, Vector2, FP_ONE, MAX_COORD, MAX_SCALE,
};
use crate::renderer::{quad_indices, RenderContext, Renderable, Renderer};
use crate::stream_render_buffer::{stream_step, BatchKey};
use crate::texture::{texture_wf, Texture};
use crate::vertex::{Color, UvCoord, Vertex};

verus! {

/// An image texture together with an axis-aligned rectangle selecting
/// which part of it the sprite shows. Many sprites may alias one
/// texture with different source rectangles — the sprite-atlas
/// pattern; none of them ever mutates it.
#[derive(Clone, Copy, Debug, PartialEq, Eq, Structural)]
pub struct Sprite {
    pub texture: Texture,
    pub source_rect: SourceRect,
}

/// Whether the sprite's source rectangle lies within its texture's
/// bounds — the sprite invariant every constructor establishes.
pub open spec fn sprite_wf(s: Sprite) -> bool {
    &&& texture_wf(s.texture)
    &&& s.source_rect.x + s.source_rect.width <= s.texture.width
    &&& s.source_rect.y + s.source_rect.height <= s.texture.height
}

/// One draw request: where and how to place a sprite. A value type,
/// not retained beyond the call that consumes it.
///
/// `location` and `pivot` are fixed-point pixel coordinates; `scale`
/// is a fixed-point factor per axis (`FP_ONE` = 1); `angle` is the
/// rotation, counter-clockwise positive, as its fixed-point cosine and
/// sine.
#[derive(Clone, Copy, Debug, PartialEq, Eq, Structural)]
pub struct SpriteRenderCommand {
    pub location: Vector2,
    pub pivot: Vector2,
    pub scale: Vector2,
    pub angle: Rotation,
    pub diffuse_color: Color,
}

/// The neutral draw request: origin location, zero pivot, unit scale,
/// no rotation, white tint.
pub open spec fn default_command() -> SpriteRenderCommand {
    SpriteRenderCommand {
        location: Vector2 { x: 0, y: 0 },
        pivot: Vector2 { x: 0, y: 0 },
        scale: Vector2 { x: FP_ONE as i64, y: FP_ONE as i64 },
        angle: Rotation { cos: FP_ONE as i64, sin: 0 },
        diffuse_color: Color { r: 255, g: 255, b: 255, a: 255 },
    }
}

/// Whether a draw request's magnitudes lie within the documented
/// limits, keeping the exact transform inside `i64` range.
pub open spec fn command_wf(c: SpriteRenderCommand) -> bool {
    &&& vec2_bounded(c.location, MAX_COORD as int)
    &&& vec2_bounded(c.pivot, MAX_COORD as int)
    &&& vec2_bounded(c.scale, MAX_SCALE as int)
    &&& rotation_bounded(c.angle)
}

/// Corner `i` of the sprite's quad in local pixel space, before the
/// pivot is subtracted: (0,0), (0,h), (w,h), (w,0) for the top-left,
/// bottom-left, bottom-right and top-right corners, in the fixed
/// vertex order.
pub open spec fn corner_px(s: Sprite, i: int) -> (int, int) {
    (
        if i == 2 || i == 3 {
            s.source_rect.width as int
        } else {
            0
        },
        if i == 1 || i == 2 {
            s.source_rect.height as int
        } else {
            0
        },
    )
}

/// The transformed position of a local point `(lx, ly)` (fixed-point,
/// relative to the pivot): scale component-wise, rotate, then
/// translate by the location. Exact integer arithmetic; the result's
/// unit is fixed-point cubed, `FP_ONE * FP_ONE * FP_ONE` per pixel.
pub open spec fn transform_x(c: SpriteRenderCommand, lx: int, ly: int) -> int {
    c.angle.cos * (c.scale.x * lx) - c.angle.sin * (c.scale.y * ly) + c.location.x * FP_ONE
        * FP_ONE
}

/// The vertical component of the transform; see [`transform_x`].
pub open spec fn transform_y(c: SpriteRenderCommand, lx: int, ly: int) -> int {
    c.angle.sin * (c.scale.x * lx) + c.angle.cos * (c.scale.y * ly) + c.location.y * FP_ONE
        * FP_ONE
}

/// The position of quad corner `i` under draw request `c`: the corner
/// offset is taken to fixed point, the pivot subtracted, and the
/// result transformed.
pub open spec fn vertex_pos(s: Sprite, c: SpriteRenderCommand, i: int) -> (int, int) {
    let lx = corner_px(s, i).0 * FP_ONE - c.pivot.x;
    let ly = corner_px(s, i).1 * FP_ONE - c.pivot.y;
    (transform_x(c, lx, ly), transform_y(c, lx, ly))
}

/// The texture coordinate of quad corner `i`: the sprite's source
/// rectangle normalized against the full texture dimensions, held as
/// an exact rational. It depends on the sprite alone — never on the
/// draw request.
pub open spec fn vertex_uv(s: Sprite, i: int) -> UvCoord {
    UvCoord {
        u_num: if i == 2 || i == 3 {
            (s.source_rect.x + s.source_rect.width) as u32
        } else {
            s.source_rect.x
        },
        u_den: s.texture.width,
        v_num: if i == 1 || i == 2 {
            (s.source_rect.y + s.source_rect.height) as u32
        } else {
            s.source_rect.y
        },
        v_den: s.texture.height,
    }
}

/// The four vertices a draw request emits, in the fixed order
/// top-left, bottom-left, bottom-right, top-right. All four carry the
/// same tint.
pub open spec fn sprite_vertices(s: Sprite, c: SpriteRenderCommand) -> Seq<Vertex> {
    Seq::new(4, |i: int| Vertex {
        pos: Vector2 {
            x: vertex_pos(s, c, i).0 as i64,
            y: vertex_pos(s, c, i).1 as i64,
        },
        uv: vertex_uv(s, i),
        color: c.diffuse_color,
    })
}

/// The batch key a sprite draws under: its texture and the default
/// sprite shader.
pub open spec fn sprite_key(s: Sprite, shader_id: u64) -> BatchKey {
    BatchKey { texture_id: s.texture.id, shader_id }
}

/// Product bound: the magnitude of a product is bounded by the
/// product of the magnitudes.
proof fn lemma_mul_bound(a: int, b: int, ca: int, cb: int)
    requires
        -ca <= a <= ca,
        -cb <= b <= cb,
        0 <= ca,
        0 <= cb,
    ensures
        -(ca * cb) <= a * b <= ca * cb,
{
    assert(-(ca * cb) <= a * b <= ca * cb) by (nonlinear_arith)
        requires
            -ca <= a <= ca,
            -cb <= b <= cb,
            0 <= ca,
            0 <= cb,
    ;
}

impl Sprite {
    /// A sprite showing all of a freshly registered texture of the
    /// given image dimensions. The image's pixel data is the image
    /// collaborator's business; this registers the GPU resource and
    /// selects the whole of it.
    pub fn new_from_image(renderer: &mut Renderer, width: u32, height: u32) -> (r: Result<
        Sprite,
        RendererError,
    >)
        requires
            0 < width <= crate::math::MAX_TEXTURE_DIM,
            0 < height <= crate::math::MAX_TEXTURE_DIM,
            old(renderer)@.next_texture_id < u64::MAX,
        ensures
            r is Ok,
            r->Ok_0 == (Sprite {
                texture: Texture { width, height, id: old(renderer)@.next_texture_id },
                source_rect: SourceRect { x: 0u32, y: 0u32, width, height },
            }),
            sprite_wf(r->Ok_0),
            final(renderer)@ == (crate::renderer::RendererModel {
                next_texture_id: (old(renderer)@.next_texture_id + 1) as u64,
                ..old(renderer)@
            }),
    {
        let texture = renderer.create_texture(width, height);
        Ok(Self::from_texture(texture))
    }

    /// A sprite showing the whole of `texture`.
    pub fn from_texture(texture: Texture) -> (s: Sprite)
        requires
            texture_wf(texture),
        ensures
            s == (Sprite {
                texture,
                source_rect: SourceRect {
                    x: 0u32,
                    y: 0u32,
                    width: texture.width,
                    height: texture.height,
                },
            }),
            sprite_wf(s),
    {
        let (width, height) = texture.dimensions();
        Self::from_texture_with_bounds(texture, SourceRect::new(0, 0, width, height))
    }

    /// A sprite showing the part of `texture` selected by
    /// `source_rect`, which must lie within the texture's bounds.
    pub fn from_texture_with_bounds(texture: Texture, source_rect: SourceRect) -> (s: Sprite)
        requires
            texture_wf(texture),
            source_rect.x + source_rect.width <= texture.width,
            source_rect.y + source_rect.height <= texture.height,
        ensures
            s == (Sprite { texture, source_rect }),
            sprite_wf(s),
    {
        Sprite { texture, source_rect }
    }

    /// A sprite showing a sub-rectangle of this sprite: `source_rect`
    /// is relative to this sprite's own source rectangle. The
    /// resulting rectangle must lie within the texture's bounds — it
    /// may extend past this sprite's own extent into the rest of a
    /// shared atlas. The texture is shared, not copied.
    pub fn subsprite(&self, source_rect: &SourceRect) -> (s: Sprite)
        requires
            sprite_wf(*self),
            self.source_rect.x + source_rect.x + source_rect.width <= self.texture.width,
            self.source_rect.y + source_rect.y + source_rect.height <= self.texture.height,
        ensures
            s == (Sprite {
                texture: self.texture,
                source_rect: SourceRect {
                    x: (self.source_rect.x + source_rect.x) as u32,
                    y: (self.source_rect.y + source_rect.y) as u32,
                    width: source_rect.width,
                    height: source_rect.height,
                },
            }),
            sprite_wf(s),
    {
        Sprite {
            texture: self.texture,
            source_rect: SourceRect {
                x: self.source_rect.x + source_rect.x,
                y: self.source_rect.y + source_rect.y,
                width: source_rect.width,
                height: source_rect.height,
            },
        }
    }

    /// Draws this sprite into the render pass: generates the four
    /// transformed vertices and the quad index pattern, and submits
    /// them to the batcher under this sprite's texture and the default
    /// shader.
    pub fn render(&self, ctx: &mut RenderContext, args: &SpriteRenderCommand) -> (r: Result<
        (),
        RendererError,
    >)
        requires
            sprite_wf(*self),
            command_wf(*args),
        ensures
            r is Ok,
            final(ctx)@ == (crate::renderer::ContextModel {
                buffer: stream_step(
                    old(ctx)@.buffer,
                    sprite_key(*self, old(ctx)@.default_shader_id),
                    sprite_vertices(*self, *args),
                    quad_indices(),
                ),
                ..old(ctx)@
            }),
    {
        let vertices = self.build_vertices(args);
        let mut indices: Vec<usize> = Vec::new();
        indices.push(1);
        indices.push(2);
        indices.push(0);
        indices.push(2);
        indices.push(0);
        indices.push(3);
        proof {
            assert(indices@ =~= quad_indices());
        }
        let renderable = Renderable {
            texture: self.texture,
            shader_id: ctx.default_shader_id(),
            vertices,
            indices,
        };
        ctx.draw(&renderable)
    }

    /// Draws this sprite at a location with the neutral request:
    /// unit scale, no rotation, zero pivot, white tint.
    pub fn render_at(&self, ctx: &mut RenderContext, location: Vector2) -> (r: Result<
        (),
        RendererError,
    >)
        requires
            sprite_wf(*self),
            vec2_bounded(location, MAX_COORD as int),
        ensures
            r is Ok,
            final(ctx)@ == (crate::renderer::ContextModel {
                buffer: stream_step(
                    old(ctx)@.buffer,
                    sprite_key(*self, old(ctx)@.default_shader_id),
                    sprite_vertices(
                        *self,
                        (SpriteRenderCommand { location, ..default_command() }),
                    ),
                    quad_indices(),
                ),
                ..old(ctx)@
            }),
    {
        let mut args = SpriteRenderCommand::default();
        args.at(location);
        self.render(ctx, &args)
    }

    /// The sprite's dimensions in texels.
    pub fn dimensions(&self) -> (d: (u32, u32))
        ensures
            d.0 == self.source_rect.width,
            d.1 == self.source_rect.height,
    {
        (self.source_rect.width, self.source_rect.height)
    }

    /// A pivot at the given fraction of the sprite's dimensions, each
    /// factor in fixed point (`FP_ONE` = the full extent): the center
    /// is `(FP_ONE/2, FP_ONE/2)`.
    pub fn pivot(&self, x: i64, y: i64) -> (p: Vector2)
        requires
            sprite_wf(*self),
            -FP_ONE <= x <= FP_ONE,
            -FP_ONE <= y <= FP_ONE,
        ensures
            p.x == self.source_rect.width * x,
            p.y == self.source_rect.height * y,
            vec2_bounded(p, MAX_COORD as int),
    {
        proof {
            lemma_mul_bound(
                self.source_rect.width as int,
                x as int,
                crate::math::MAX_TEXTURE_DIM as int,
                FP_ONE as int,
            );
            lemma_mul_bound(
                self.source_rect.height as int,
                y as int,
                crate::math::MAX_TEXTURE_DIM as int,
                FP_ONE as int,
            );
        }
        Vector2 { x: (self.source_rect.width as i64) * x, y: (self.source_rect.height as i64) * y }
    }

    /// The four transformed, tinted, UV-mapped vertices of this sprite
    /// under `args`, in quad order.
    fn build_vertices(&self, args: &SpriteRenderCommand) -> (vs: Vec<Vertex>)
        requires
            sprite_wf(*self),
            command_wf(*args),
        ensures
            vs@ == sprite_vertices(*self, *args),
    {
        let width_fp = (self.source_rect.width as i64) * FP_ONE;
        let height_fp = (self.source_rect.height as i64) * FP_ONE;
        let u_left = self.source_rect.x;
        let u_right = self.source_rect.x + self.source_rect.width;
        let v_top = self.source_rect.y;
        let v_bottom = self.source_rect.y + self.source_rect.height;
        let u_den = self.texture.width;
        let v_den = self.texture.height;
        let uv_tl = UvCoord { u_num: u_left, u_den, v_num: v_top, v_den };
        let uv_bl = UvCoord { u_num: u_left, u_den, v_num: v_bottom, v_den };
        let uv_br = UvCoord { u_num: u_right, u_den, v_num: v_bottom, v_den };
        let uv_tr = UvCoord { u_num: u_right, u_den, v_num: v_top, v_den };
        let p0 = self.transform_corner(args, 0, 0, Ghost(0));
        let p1 = self.transform_corner(args, 0, height_fp, Ghost(1));
        let p2 = self.transform_corner(args, width_fp, height_fp, Ghost(2));
        let p3 = self.transform_corner(args, width_fp, 0, Ghost(3));
        let mut vs: Vec<Vertex> = Vec::new();
        vs.push(Vertex { pos: p0, uv: uv_tl, color: args.diffuse_color });
        vs.push(Vertex { pos: p1, uv: uv_bl, color: args.diffuse_color });
        vs.push(Vertex { pos: p2, uv: uv_br, color: args.diffuse_color });
        vs.push(Vertex { pos: p3, uv: uv_tr, color: args.diffuse_color });
        proof {
            assert(vs@ =~= sprite_vertices(*self, *args));
        }
        vs
    }

    /// The transformed position of quad corner `corner`, whose
    /// pre-pivot offset in fixed point is `(cx, cy)`.
    fn transform_corner(
        &self,
        args: &SpriteRenderCommand,
        cx: i64,
        cy: i64,
        corner: Ghost<int>,
    ) -> (p: Vector2)
        requires
            sprite_wf(*self),
            command_wf(*args),
            0 <= corner@ < 4,
            cx == corner_px(*self, corner@).0 * FP_ONE,
            cy == corner_px(*self, corner@).1 * FP_ONE,
        ensures
            p.x == vertex_pos(*self, *args, corner@).0,
            p.y == vertex_pos(*self, *args, corner@).1,
    {
        let lx = cx - args.pivot.x;
        let ly = cy - args.pivot.y;
        proof {
            assert(-(2 * MAX_COORD) <= lx <= 2 * MAX_COORD);
            assert(-(2 * MAX_COORD) <= ly <= 2 * MAX_COORD);
            lemma_mul_bound(args.scale.x as int, lx as int, MAX_SCALE as int, 2 * MAX_COORD);
            lemma_mul_bound(args.scale.y as int, ly as int, MAX_SCALE as int, 2 * MAX_COORD);
        }
        let sx = args.scale.x * lx;
        let sy = args.scale.y * ly;
        proof {
            lemma_mul_bound(
                args.angle.cos as int,
                sx as int,
                FP_ONE as int,
                MAX_SCALE * 2 * MAX_COORD,
            );
            lemma_mul_bound(
                args.angle.cos as int,
                sy as int,
                FP_ONE as int,
                MAX_SCALE * 2 * MAX_COORD,
            );
            lemma_mul_bound(
                args.angle.sin as int,
                sx as int,
                FP_ONE as int,
                MAX_SCALE * 2 * MAX_COORD,
            );
            lemma_mul_bound(
                args.angle.sin as int,
                sy as int,
                FP_ONE as int,
                MAX_SCALE * 2 * MAX_COORD,
            );
        }
        let rx = args.angle.cos * sx - args.angle.sin * sy;
        let ry = args.angle.sin * sx + args.angle.cos * sy;
        let tx = args.location.x * FP_ONE * FP_ONE;
        let ty = args.location.y * FP_ONE * FP_ONE;
        Vector2 { x: rx + tx, y: ry + ty }
    }
}

impl SpriteRenderCommand {
    /// The neutral request at the given location.
    pub fn new(location: Vector2) -> (c: SpriteRenderCommand)
        ensures
            c == (SpriteRenderCommand { location, ..default_command() }),
    {
        let mut args = Self::default();
        args.at(location);
        args
    }

    /// Sets the location the sprite's pivot is placed at.
    pub fn at(&mut self, location: Vector2) -> (r: &mut SpriteRenderCommand)
        ensures
            *r == (SpriteRenderCommand { location, ..*old(self) }),
            *final(self) == *final(r),
    {
        self.location = location;
        self
    }

    /// Sets the pivot, in fixed-point pixels relative to the sprite's
    /// top-left corner; the sprite rotates and scales about it.
    pub fn with_pivot(&mut self, pivot: Vector2) -> (r: &mut SpriteRenderCommand)
        ensures
            *r == (SpriteRenderCommand { pivot, ..*old(self) }),
            *final(self) == *final(r),
    {
        self.pivot = pivot;
        self
    }

    /// Sets the per-axis fixed-point scale factors.
    pub fn with_scale(&mut self, scale: Vector2) -> (r: &mut SpriteRenderCommand)
        ensures
            *r == (SpriteRenderCommand { scale, ..*old(self) }),
            *final(self) == *final(r),
    {
        self.scale = scale;
        self
    }

    /// Sets the rotation angle, given as its fixed-point cosine and
    /// sine, counter-clockwise positive.
    pub fn with_angle(&mut self, angle: Rotation) -> (r: &mut SpriteRenderCommand)
        ensures
            *r == (SpriteRenderCommand { angle, ..*old(self) }),
            *final(self) == *final(r),
    {
        self.angle = angle;
        self
    }

    /// Sets the tint applied uniformly to all four vertices.
    pub fn with_color(&mut self, diffuse_color: Color) -> (r: &mut SpriteRenderCommand)
        ensures
            *r == (SpriteRenderCommand { diffuse_color, ..*old(self) }),
            *final(self) == *final(r),
    {
        self.diffuse_color = diffuse_color;
        self
    }

    /// Draws `sprite` with this request; see [`Sprite::render`].
    pub fn render(&self, sprite: &Sprite, ctx: &mut RenderContext) -> (r: Result<
        (),
        RendererError,
    >)
        requires
            sprite_wf(*sprite),
            command_wf(*self),
        ensures
            r is Ok,
            final(ctx)@ == (crate::renderer::ContextModel {
                buffer: stream_step(
                    old(ctx)@.buffer,
                    sprite_key(*sprite, old(ctx)@.default_shader_id),
                    sprite_vertices(*sprite, *self),
                    quad_indices(),
                ),
                ..old(ctx)@
            }),
    {
        sprite.render(ctx, self)
    }
}

impl Default for SpriteRenderCommand {
    /// The neutral draw request; see [`default_command`].
    fn default() -> (c: SpriteRenderCommand)
        ensures
            c == default_command(),
    {
        SpriteRenderCommand {
            location: Vector2 { x: 0, y: 0 },
            pivot: Vector2 { x: 0, y: 0 },
            scale: Vector2 { x: FP_ONE, y: FP_ONE },
            angle: Rotation { cos: FP_ONE, sin: 0 },
            diffuse_color: Color { r: 255, g: 255, b: 255, a: 255 },
        }
    }
}

/// UV invariance law: the texture coordinates a draw emits depend on
/// the sprite alone. Changing the request's location, pivot, scale,
/// angle — any part of it — alters only vertex positions, never the
/// computed UVs.
pub proof fn lemma_uv_transform_invariant(
    s: Sprite,
    a: SpriteRenderCommand,
    b: SpriteRenderCommand,
)
    ensures
        forall|i: int|
            0 <= i < 4 ==> #[trigger] sprite_vertices(s, a)[i].uv == sprite_vertices(s, b)[i].uv,
{
}

/// Round-trip law: a sprite constructed over a whole image, drawn
/// with the neutral request (identity scale, no rotation, zero pivot,
/// origin location), produces a quad whose corner positions are
/// exactly the image's raw dimensions — `(0,0)`, `(0,h)`, `(w,h)`,
/// `(w,0)` in pixels, each scaled by the constant position unit
/// `FP_ONE * FP_ONE * FP_ONE`.
pub proof fn lemma_identity_round_trip(s: Sprite)
    requires
        sprite_wf(s),
        s.source_rect == (SourceRect {
            x: 0u32,
            y: 0u32,
            width: s.texture.width,
            height: s.texture.height,
        }),
    ensures
        sprite_vertices(s, default_command())[0].pos == (Vector2 { x: 0, y: 0 }),
        sprite_vertices(s, default_command())[1].pos == (Vector2 {
            x: 0,
            y: (s.texture.height * FP_ONE * FP_ONE * FP_ONE) as i64,
        }),
        sprite_vertices(s, default_command())[2].pos == (Vector2 {
            x: (s.texture.width * FP_ONE * FP_ONE * FP_ONE) as i64,
            y: (s.texture.height * FP_ONE * FP_ONE * FP_ONE) as i64,
        }),
        sprite_vertices(s, default_command())[3].pos == (Vector2 {
            x: (s.texture.width * FP_ONE * FP_ONE * FP_ONE) as i64,
            y: 0,
        }),
{
    let c = default_command();
    assert forall|i: int| 0 <= i < 4 implies {
        &&& vertex_pos(s, c, i).0 == corner_px(s, i).0 * FP_ONE * FP_ONE * FP_ONE
        &&& vertex_pos(s, c, i).1 == corner_px(s, i).1 * FP_ONE * FP_ONE * FP_ONE
    } by {
        lemma_identity_axis(corner_px(s, i).0);
        lemma_identity_axis(corner_px(s, i).1);
        assert(vertex_pos(s, c, i).0 == FP_ONE * (FP_ONE * (corner_px(s, i).0 * FP_ONE)));
        assert(vertex_pos(s, c, i).1 == FP_ONE * (FP_ONE * (corner_px(s, i).1 * FP_ONE)));
    }
}

/// Under unit scale and no rotation, the transform's nested products
/// along one axis collapse to the corner offset times the constant
/// position unit.
proof fn lemma_identity_axis(v: int)
    ensures
        FP_ONE * (FP_ONE * (v * FP_ONE)) == v * FP_ONE * FP_ONE * FP_ONE,
{
    assert(FP_ONE * (FP_ONE * (v * FP_ONE)) == v * FP_ONE * FP_ONE * FP_ONE)
        by (nonlinear_arith);
}

} // verus!
