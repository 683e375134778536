use riddle_renderer::error::RendererError;
use riddle_renderer::math::{Rect, Vector2};
use riddle_renderer::renderer::{FrameOutput, Renderer};
use riddle_renderer::sprite::Sprite;
use riddle_renderer::surface::{AcquireOutcome, DeviceNegotiation, PresentOutcome, SurfaceState};
use riddle_renderer::vertex::Color;

const PIX: i64 = 4096 * 4096 * 4096;

fn configured_renderer() -> Renderer {
    let mut r = Renderer::new(42);
    r.configure(800, 600, DeviceNegotiation::Success).unwrap();
    r
}

#[test]
fn renderer_reports_window_and_dimensions() {
    let r = configured_renderer();
    assert_eq!(r.window_id(), 42);
    assert_eq!(r.dimensions(), (800, 600));
}

#[test]
fn render_presents_once_on_success() {
    let mut r = configured_renderer();
    let (value, out) = r
        .render(
            AcquireOutcome::Acquired,
            AcquireOutcome::Acquired,
            PresentOutcome::Displayed,
            |ctx| (ctx, Ok(7u32)),
        )
        .unwrap();
    assert_eq!(value, 7);
    assert!(out.submissions.is_empty());
    assert_eq!(out.clear_color, None);
    assert_eq!(r.surface().present_count(), 1);
    assert!(matches!(r.surface().state(), SurfaceState::Configured));
}

#[test]
fn render_presents_once_even_when_closure_fails() {
    let mut r = configured_renderer();
    let result = r.render::<(), _>(
        AcquireOutcome::Acquired,
        AcquireOutcome::Acquired,
        PresentOutcome::Displayed,
        |ctx| (ctx, Err(RendererError::RenderTargetError)),
    );
    assert_eq!(result.unwrap_err(), RendererError::RenderTargetError);
    assert_eq!(r.surface().present_count(), 1);
    assert!(matches!(r.surface().state(), SurfaceState::Configured));
}

#[test]
fn render_presents_once_when_closure_drew_and_failed() {
    let mut r = configured_renderer();
    let sprite = Sprite::new_from_image(&mut r, 4, 4).unwrap();
    let result = r.render::<u32, _>(
        AcquireOutcome::Acquired,
        AcquireOutcome::Acquired,
        PresentOutcome::Displayed,
        move |mut ctx| {
            sprite.render_at(&mut ctx, Vector2::new(0, 0)).unwrap();
            (ctx, Err(RendererError::RenderTargetError))
        },
    );
    assert_eq!(result.unwrap_err(), RendererError::RenderTargetError);
    assert_eq!(r.surface().present_count(), 1);
}

#[test]
fn render_survives_one_lost_acquisition_with_forced_rebuild() {
    let mut r = configured_renderer();
    let (value, _out) = r
        .render(
            AcquireOutcome::SurfaceLost,
            AcquireOutcome::Acquired,
            PresentOutcome::Displayed,
            |ctx| (ctx, Ok(1u8)),
        )
        .unwrap();
    assert_eq!(value, 1);
    assert_eq!(r.surface().rebuild_count(), 1);
    assert_eq!(r.surface().present_count(), 1);
}

#[test]
fn render_surfaces_acquisition_failure_after_failed_retry() {
    let mut r = configured_renderer();
    let result = r.render::<(), _>(
        AcquireOutcome::SurfaceLost,
        AcquireOutcome::SurfaceLost,
        PresentOutcome::Displayed,
        |ctx| (ctx, Ok(())),
    );
    assert_eq!(result.unwrap_err(), RendererError::FrameAcquisitionError);
    assert_eq!(r.surface().rebuild_count(), 1);
    assert_eq!(r.surface().present_count(), 0);
    assert!(matches!(r.surface().state(), SurfaceState::Configured));
}

#[test]
fn render_surfaces_presentation_failure() {
    let mut r = configured_renderer();
    let result = r.render::<(), _>(
        AcquireOutcome::Acquired,
        AcquireOutcome::Acquired,
        PresentOutcome::Rejected,
        |ctx| (ctx, Ok(())),
    );
    assert_eq!(result.unwrap_err(), RendererError::PresentationError);
    assert_eq!(r.surface().present_count(), 1);
    assert!(matches!(r.surface().state(), SurfaceState::Configured));
}

#[test]
fn closure_error_wins_over_presentation_error() {
    let mut r = configured_renderer();
    let result = r.render::<(), _>(
        AcquireOutcome::Acquired,
        AcquireOutcome::Acquired,
        PresentOutcome::Rejected,
        |ctx| (ctx, Err(RendererError::RenderTargetError)),
    );
    assert_eq!(result.unwrap_err(), RendererError::RenderTargetError);
    assert_eq!(r.surface().present_count(), 1);
}

#[test]
fn clear_is_recorded_and_last_clear_wins() {
    let mut r = configured_renderer();
    let ((), out) = r
        .render(
            AcquireOutcome::Acquired,
            AcquireOutcome::Acquired,
            PresentOutcome::Displayed,
            |mut ctx| {
                ctx.clear(Color::new(1, 2, 3, 4)).unwrap();
                ctx.clear(Color::new(10, 20, 30, 255)).unwrap();
                (ctx, Ok(()))
            },
        )
        .unwrap();
    assert_eq!(out.clear_color, Some(Color::new(10, 20, 30, 255)));
    assert!(out.submissions.is_empty());
}

#[test]
fn fill_rect_emits_a_quad_over_the_white_texture() {
    let mut r = configured_renderer();
    let rect = Rect {
        location: Vector2::new(1 * 4096, 2 * 4096),
        dimensions: Vector2::new(3 * 4096, 4 * 4096),
    };
    let color = Color::new(200, 100, 50, 255);
    let ((), out) = r
        .render(
            AcquireOutcome::Acquired,
            AcquireOutcome::Acquired,
            PresentOutcome::Displayed,
            move |mut ctx| {
                ctx.fill_rect(&rect, color).unwrap();
                (ctx, Ok(()))
            },
        )
        .unwrap();
    assert_eq!(out.submissions.len(), 1);
    let sub = &out.submissions[0];
    assert_eq!(sub.key.texture_id, 0);
    assert_eq!(sub.key.shader_id, 0);
    assert_eq!(sub.indices, vec![1, 2, 0, 2, 0, 3]);
    let expected = [
        (1 * PIX, 2 * PIX),
        (1 * PIX, 6 * PIX),
        (4 * PIX, 6 * PIX),
        (4 * PIX, 2 * PIX),
    ];
    for (vertex, (x, y)) in sub.vertices.iter().zip(expected.iter()) {
        assert_eq!(vertex.pos, Vector2::new(*x, *y));
        assert_eq!(vertex.color, color);
        assert_eq!(vertex.uv.u_den, 1);
        assert_eq!(vertex.uv.v_den, 1);
    }
}

#[test]
fn draws_with_keys_a_a_b_become_two_submissions() {
    let mut r = configured_renderer();
    let sprite_a = Sprite::new_from_image(&mut r, 2, 2).unwrap();
    let sprite_b = Sprite::new_from_image(&mut r, 2, 2).unwrap();
    let ((), out) = r
        .render(
            AcquireOutcome::Acquired,
            AcquireOutcome::Acquired,
            PresentOutcome::Displayed,
            move |mut ctx| {
                sprite_a.render_at(&mut ctx, Vector2::new(0, 0)).unwrap();
                sprite_a.render_at(&mut ctx, Vector2::new(8 * 4096, 0)).unwrap();
                sprite_b.render_at(&mut ctx, Vector2::new(16 * 4096, 0)).unwrap();
                (ctx, Ok(()))
            },
        )
        .unwrap();
    assert_eq!(out.submissions.len(), 2);

    let first = &out.submissions[0];
    assert_eq!(first.key.texture_id, 1);
    assert_eq!(first.vertices.len(), 8);
    assert_eq!(first.indices, vec![1, 2, 0, 2, 0, 3, 5, 6, 4, 6, 4, 7]);
    assert_eq!(first.vertices[0].pos, Vector2::new(0, 0));
    assert_eq!(first.vertices[2].pos, Vector2::new(2 * PIX, 2 * PIX));
    assert_eq!(first.vertices[4].pos, Vector2::new(8 * PIX, 0));
    assert_eq!(first.vertices[6].pos, Vector2::new(10 * PIX, 2 * PIX));

    let second = &out.submissions[1];
    assert_eq!(second.key.texture_id, 2);
    assert_eq!(second.vertices.len(), 4);
    assert_eq!(second.indices, vec![1, 2, 0, 2, 0, 3]);
    assert_eq!(second.vertices[0].pos, Vector2::new(16 * PIX, 0));
}

#[test]
fn batches_never_span_frames() {
    let mut r = configured_renderer();
    let sprite = Sprite::new_from_image(&mut r, 2, 2).unwrap();
    let ((), first_out) = r
        .render(
            AcquireOutcome::Acquired,
            AcquireOutcome::Acquired,
            PresentOutcome::Displayed,
            move |mut ctx| {
                sprite.render_at(&mut ctx, Vector2::new(0, 0)).unwrap();
                (ctx, Ok(()))
            },
        )
        .unwrap();
    assert_eq!(first_out.submissions.len(), 1);
    let ((), second_out) = r
        .render(
            AcquireOutcome::Acquired,
            AcquireOutcome::Acquired,
            PresentOutcome::Displayed,
            move |mut ctx| {
                sprite.render_at(&mut ctx, Vector2::new(4096, 4096)).unwrap();
                (ctx, Ok(()))
            },
        )
        .unwrap();
    assert_eq!(second_out.submissions.len(), 1);
    assert_eq!(second_out.submissions[0].vertices.len(), 4);
    assert_eq!(r.surface().present_count(), 2);
}

#[test]
fn create_texture_stamps_fresh_identifiers() {
    let mut r = configured_renderer();
    let t1 = r.create_texture(16, 16);
    let t2 = r.create_texture(32, 8);
    assert_eq!(t1.id, 1);
    assert_eq!(t2.id, 2);
    assert_eq!(t1.dimensions(), (16, 16));
    assert_eq!(t2.dimensions(), (32, 8));
}

#[test]
fn failed_render_leaves_surface_usable() {
    let mut r = configured_renderer();
    let result = r.render::<(), _>(
        AcquireOutcome::SurfaceLost,
        AcquireOutcome::SurfaceLost,
        PresentOutcome::Displayed,
        |ctx| (ctx, Ok(())),
    );
    assert!(result.is_err());
    let ok: Result<((), FrameOutput), RendererError> = r.render(
        AcquireOutcome::Acquired,
        AcquireOutcome::Acquired,
        PresentOutcome::Displayed,
        |ctx| (ctx, Ok(())),
    );
    assert!(ok.is_ok());
    assert_eq!(r.surface().present_count(), 1);
}
