use riddle_renderer::error::{CommonError, RendererError};
use riddle_renderer::math::{Rotation, SourceRect, Vector2};
use riddle_renderer::renderer::Renderer;
use riddle_renderer::sprite::{Sprite, SpriteRenderCommand};
use riddle_renderer::stream_render_buffer::Submission;
use riddle_renderer::surface::{AcquireOutcome, DeviceNegotiation, PresentOutcome};
use riddle_renderer::texture::Texture;
use riddle_renderer::vertex::Color;

const FP: i64 = 4096;
const PIX: i64 = 4096 * 4096 * 4096;

fn render_one(sprite: Sprite, cmd: SpriteRenderCommand) -> Submission {
    let mut r = Renderer::new(0);
    r.configure(640, 480, DeviceNegotiation::Success).unwrap();
    let ((), mut out) = r
        .render(
            AcquireOutcome::Acquired,
            AcquireOutcome::Acquired,
            PresentOutcome::Displayed,
            move |mut ctx| {
                let res = sprite.render(&mut ctx, &cmd);
                (ctx, res)
            },
        )
        .unwrap();
    assert_eq!(out.submissions.len(), 1);
    out.submissions.remove(0)
}

#[test]
fn identity_render_round_trips_image_dimensions() {
    let mut r = Renderer::new(0);
    r.configure(640, 480, DeviceNegotiation::Success).unwrap();
    let sprite = Sprite::new_from_image(&mut r, 3, 5).unwrap();
    assert_eq!(sprite.dimensions(), (3, 5));
    let sub = render_one(sprite, SpriteRenderCommand::default());
    assert_eq!(sub.vertices.len(), 4);
    assert_eq!(sub.indices, vec![1, 2, 0, 2, 0, 3]);
    assert_eq!(sub.vertices[0].pos, Vector2::new(0, 0));
    assert_eq!(sub.vertices[1].pos, Vector2::new(0, 5 * PIX));
    assert_eq!(sub.vertices[2].pos, Vector2::new(3 * PIX, 5 * PIX));
    assert_eq!(sub.vertices[3].pos, Vector2::new(3 * PIX, 0));
    for vertex in &sub.vertices {
        assert_eq!(vertex.color, Color::new(255, 255, 255, 255));
    }
}

#[test]
fn full_sprite_uvs_span_the_texture() {
    let mut r = Renderer::new(0);
    r.configure(640, 480, DeviceNegotiation::Success).unwrap();
    let sprite = Sprite::new_from_image(&mut r, 3, 5).unwrap();
    let sub = render_one(sprite, SpriteRenderCommand::default());
    let uv = |i: usize| {
        (
            sub.vertices[i].uv.u_num,
            sub.vertices[i].uv.u_den,
            sub.vertices[i].uv.v_num,
            sub.vertices[i].uv.v_den,
        )
    };
    assert_eq!(uv(0), (0, 3, 0, 5));
    assert_eq!(uv(1), (0, 3, 5, 5));
    assert_eq!(uv(2), (3, 3, 5, 5));
    assert_eq!(uv(3), (3, 3, 0, 5));
}

#[test]
fn location_translates_all_corners() {
    let sprite = Sprite::from_texture(Texture::new(3, 5, 9));
    let mut cmd = SpriteRenderCommand::default();
    cmd.at(Vector2::new(10 * FP, 20 * FP));
    let sub = render_one(sprite, cmd);
    assert_eq!(sub.key.texture_id, 9);
    assert_eq!(sub.vertices[0].pos, Vector2::new(10 * PIX, 20 * PIX));
    assert_eq!(sub.vertices[2].pos, Vector2::new(13 * PIX, 25 * PIX));
}

#[test]
fn scale_multiplies_dimensions() {
    let sprite = Sprite::from_texture(Texture::new(3, 5, 1));
    let mut cmd = SpriteRenderCommand::default();
    cmd.with_scale(Vector2::new(2 * FP, 3 * FP));
    let sub = render_one(sprite, cmd);
    assert_eq!(sub.vertices[0].pos, Vector2::new(0, 0));
    assert_eq!(sub.vertices[2].pos, Vector2::new(6 * PIX, 15 * PIX));
}

#[test]
fn quarter_turn_rotates_corners_counter_clockwise() {
    let sprite = Sprite::from_texture(Texture::new(3, 5, 1));
    let mut cmd = SpriteRenderCommand::default();
    cmd.with_angle(Rotation::new(0, FP));
    let sub = render_one(sprite, cmd);
    assert_eq!(sub.vertices[0].pos, Vector2::new(0, 0));
    assert_eq!(sub.vertices[1].pos, Vector2::new(-5 * PIX, 0));
    assert_eq!(sub.vertices[2].pos, Vector2::new(-5 * PIX, 3 * PIX));
    assert_eq!(sub.vertices[3].pos, Vector2::new(0, 3 * PIX));
}

#[test]
fn pivot_offsets_the_quad_before_transforms() {
    let sprite = Sprite::from_texture(Texture::new(3, 5, 1));
    let mut cmd = SpriteRenderCommand::default();
    cmd.with_pivot(Vector2::new(3 * FP, 5 * FP));
    let sub = render_one(sprite, cmd);
    assert_eq!(sub.vertices[0].pos, Vector2::new(-3 * PIX, -5 * PIX));
    assert_eq!(sub.vertices[2].pos, Vector2::new(0, 0));
}

#[test]
fn uvs_are_invariant_under_every_transform() {
    let sprite = Sprite::from_texture_with_bounds(
        Texture::new(8, 8, 1),
        SourceRect::new(2, 1, 4, 6),
    );
    let plain = render_one(sprite, SpriteRenderCommand::default());
    let mut wild = SpriteRenderCommand::new(Vector2::new(-37 * FP, 11 * FP));
    wild.with_pivot(Vector2::new(2 * FP, 3 * FP))
        .with_scale(Vector2::new(-2 * FP, 5 * FP))
        .with_angle(Rotation::new(-2896, 2896))
        .with_color(Color::new(1, 2, 3, 4));
    let transformed = render_one(sprite, wild);
    for i in 0..4 {
        assert_eq!(plain.vertices[i].uv, transformed.vertices[i].uv);
        assert_ne!(plain.vertices[i].color, transformed.vertices[i].color);
    }
    assert_ne!(plain.vertices[2].pos, transformed.vertices[2].pos);
}

#[test]
fn tint_is_uniform_across_the_quad() {
    let sprite = Sprite::from_texture(Texture::new(2, 2, 1));
    let mut cmd = SpriteRenderCommand::default();
    cmd.with_color(Color::new(9, 8, 7, 6));
    let sub = render_one(sprite, cmd);
    for vertex in &sub.vertices {
        assert_eq!(vertex.color, Color::new(9, 8, 7, 6));
    }
}

#[test]
fn subsprite_offsets_into_the_atlas() {
    let sprite = Sprite::from_texture_with_bounds(
        Texture::new(8, 8, 1),
        SourceRect::new(2, 1, 4, 6),
    );
    let sub_sprite = sprite.subsprite(&SourceRect::new(1, 2, 2, 3));
    assert_eq!(sub_sprite.source_rect, SourceRect::new(3, 3, 2, 3));
    assert_eq!(sub_sprite.texture.id, 1);
    let sub = render_one(sub_sprite, SpriteRenderCommand::default());
    let uv = |i: usize| {
        (
            sub.vertices[i].uv.u_num,
            sub.vertices[i].uv.u_den,
            sub.vertices[i].uv.v_num,
            sub.vertices[i].uv.v_den,
        )
    };
    assert_eq!(uv(0), (3, 8, 3, 8));
    assert_eq!(uv(2), (5, 8, 6, 8));
    assert_eq!(sub.vertices[2].pos, Vector2::new(2 * PIX, 3 * PIX));
}

#[test]
fn subsprite_may_extend_past_the_parent_into_the_texture() {
    let sprite = Sprite::from_texture_with_bounds(
        Texture::new(8, 8, 1),
        SourceRect::new(0, 0, 4, 4),
    );
    let sub_sprite = sprite.subsprite(&SourceRect::new(2, 0, 4, 4));
    assert_eq!(sub_sprite.source_rect, SourceRect::new(2, 0, 4, 4));
    assert_eq!(sub_sprite.texture, sprite.texture);
    assert_eq!(sprite.source_rect, SourceRect::new(0, 0, 4, 4));
    let sub = render_one(sub_sprite, SpriteRenderCommand::default());
    let uv = |i: usize| {
        (
            sub.vertices[i].uv.u_num,
            sub.vertices[i].uv.u_den,
            sub.vertices[i].uv.v_num,
            sub.vertices[i].uv.v_den,
        )
    };
    assert_eq!(uv(0), (2, 8, 0, 8));
    assert_eq!(uv(2), (6, 8, 4, 8));
}

#[test]
fn sprite_pivot_scales_dimensions_by_fixed_point_factors() {
    let sprite = Sprite::from_texture(Texture::new(4, 6, 1));
    let center = sprite.pivot(FP / 2, FP / 2);
    assert_eq!(center, Vector2::new(2 * FP, 3 * FP));
    let corner = sprite.pivot(FP, FP);
    assert_eq!(corner, Vector2::new(4 * FP, 6 * FP));
}

#[test]
fn command_builders_set_each_field() {
    let mut cmd = SpriteRenderCommand::new(Vector2::new(100, 200));
    cmd.with_pivot(Vector2::new(1, 2))
        .with_scale(Vector2::new(3, 4))
        .with_angle(Rotation::new(5, 6))
        .with_color(Color::new(9, 8, 7, 6));
    assert_eq!(cmd.location, Vector2::new(100, 200));
    assert_eq!(cmd.pivot, Vector2::new(1, 2));
    assert_eq!(cmd.scale, Vector2::new(3, 4));
    assert_eq!(cmd.angle, Rotation::new(5, 6));
    assert_eq!(cmd.diffuse_color, Color::new(9, 8, 7, 6));
    let neutral = SpriteRenderCommand::default();
    assert_eq!(neutral.scale, Vector2::new(FP, FP));
    assert_eq!(neutral.angle, Rotation::identity());
}

#[test]
fn command_render_matches_sprite_render() {
    let sprite = Sprite::from_texture(Texture::new(3, 5, 1));
    let mut cmd = SpriteRenderCommand::new(Vector2::new(7 * FP, 0));
    cmd.with_scale(Vector2::new(2 * FP, FP));
    let via_sprite = render_one(sprite, cmd);
    let mut r = Renderer::new(0);
    r.configure(640, 480, DeviceNegotiation::Success).unwrap();
    let ((), out) = r
        .render(
            AcquireOutcome::Acquired,
            AcquireOutcome::Acquired,
            PresentOutcome::Displayed,
            move |mut ctx| {
                let res = cmd.render(&sprite, &mut ctx);
                (ctx, res)
            },
        )
        .unwrap();
    assert_eq!(out.submissions[0], via_sprite);
}

#[test]
fn render_at_matches_default_command_at_location() {
    let sprite = Sprite::from_texture(Texture::new(3, 5, 1));
    let location = Vector2::new(10 * FP, 20 * FP);
    let mut cmd = SpriteRenderCommand::default();
    cmd.at(location);
    let via_command = render_one(sprite, cmd);
    let mut r = Renderer::new(0);
    r.configure(640, 480, DeviceNegotiation::Success).unwrap();
    let ((), out) = r
        .render(
            AcquireOutcome::Acquired,
            AcquireOutcome::Acquired,
            PresentOutcome::Displayed,
            move |mut ctx| {
                let res = sprite.render_at(&mut ctx, location);
                (ctx, res)
            },
        )
        .unwrap();
    assert_eq!(out.submissions[0], via_command);
}

#[test]
fn error_names_are_stable() {
    assert_eq!(RendererError::DeviceInitError.name(), "device init error");
    assert_eq!(RendererError::FrameAcquisitionError.name(), "frame acquisition error");
    assert_eq!(RendererError::PresentationError.name(), "presentation error");
    assert_eq!(RendererError::RenderTargetError.name(), "render target error");
}

#[test]
fn common_error_carries_its_message() {
    let io = CommonError::io(String::from("disk unplugged"));
    assert!(matches!(io, CommonError::Io(_)));
    assert_eq!(io.message(), "disk unplugged");
    let other = CommonError::common(String::from("something else"));
    assert!(matches!(other, CommonError::Common(_)));
    assert_eq!(other.message(), "something else");
}
