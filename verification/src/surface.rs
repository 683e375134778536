//! Lifecycle of the presentable surface: swapchain configuration,
//! deferred resize handling, frame acquisition and presentation.
//!
//! The platform's side of each step — adapter negotiation, the
//! swapchain's report when a frame is requested, the presentation
//! call's verdict — enters the library as a plain outcome value, so
//! the state transitions here are verified for every outcome the
//! platform can produce. The embedding application performs the actual
//! GPU calls and reports how they went.

use vstd::prelude::*;
use crate::error::RendererError;

verus! {

/// Where the surface stands in its lifecycle.
///
/// `Unconfigured -> Configured -> FrameAcquired -> Configured -> ...`;
/// a resize notification is recorded while in any configured state and
/// forces one swapchain rebuild at the next acquisition. No
/// acquisition is valid from `Unconfigured`.
#[derive(Clone, Copy, Debug, PartialEq, Eq, Structural)]
pub enum SurfaceState {
    /// No surface exists yet.
    Unconfigured,
    /// The surface and its swapchain exist; no frame is outstanding.
    Configured,
    /// A frame token is outstanding; no new frame may be acquired.
    FrameAcquired,
}

/// How adapter and device negotiation ended when the surface was
/// configured.
#[derive(Clone, Copy, Debug, PartialEq, Eq, Structural)]
pub enum DeviceNegotiation {
    /// A compatible GPU was found and the device was created.
    Success,
    /// No compatible adapter was available.
    NoCompatibleAdapter,
    /// The adapter refused to create the device.
    DeviceRejected,
}

/// What the swapchain reported when the next presentable image was
/// requested.
#[derive(Clone, Copy, Debug, PartialEq, Eq, Structural)]
pub enum AcquireOutcome {
    /// A presentable image was handed out.
    Acquired,
    /// The surface was reported lost or the request timed out.
    SurfaceLost,
}

/// What the platform reported when a frame was presented.
#[derive(Clone, Copy, Debug, PartialEq, Eq, Structural)]
pub enum PresentOutcome {
    /// The frame was queued for display.
    Displayed,
    /// The presentation call was rejected; the frame is discarded.
    Rejected,
}

/// A token for exclusive write access to the currently presentable
/// image. At most one is live per surface; it is consumed by
/// [`SurfaceFrameManager::present`], the only path by which its
/// lifetime ends. The token can be neither copied nor constructed
/// outside this module.
#[derive(Debug)]
pub struct Frame {
    id: u64,
}

impl Frame {
    /// The acquisition number stamped on this frame.
    pub closed spec fn id(&self) -> u64 {
        self.id
    }
}

/// Mathematical image of a [`SurfaceFrameManager`].
pub ghost struct SurfaceModel {
    /// Lifecycle position.
    pub state: SurfaceState,
    /// Current swapchain width in pixels.
    pub width: u32,
    /// Current swapchain height in pixels.
    pub height: u32,
    /// The most recent resize notification not yet applied, if any.
    pub pending_resize: Option<(u32, u32)>,
    /// How many times the swapchain was torn down and recreated since
    /// `configure`. The initial creation does not count.
    pub rebuilds: u64,
    /// How many frames have been presented (successfully or not).
    pub presents: u64,
    /// The id the next acquired frame will carry.
    pub next_frame_id: u64,
    /// The id of the outstanding frame; meaningful only in state
    /// `FrameAcquired`.
    pub frame_id: u64,
}

/// What a resize notification does: it records the newest dimensions,
/// replacing any earlier unapplied notification, and touches nothing
/// else. Rebuilding is deferred to the next acquisition.
pub open spec fn notify_step(m: SurfaceModel, width: u32, height: u32) -> SurfaceModel {
    SurfaceModel { pending_resize: Some((width, height)), ..m }
}

/// What acquisition does before asking the platform for an image: if a
/// resize was recorded, the swapchain is torn down and recreated once,
/// at the recorded dimensions; otherwise nothing happens.
pub open spec fn apply_pending(m: SurfaceModel) -> SurfaceModel {
    match m.pending_resize {
        None => m,
        Some(d) => SurfaceModel {
            width: d.0,
            height: d.1,
            pending_resize: None,
            rebuilds: (m.rebuilds + 1) as u64,
            ..m
        },
    }
}

/// What a forced rebuild does: the swapchain is recreated — at the
/// recorded dimensions if a resize is pending, else at the current
/// ones — and the rebuild is counted.
pub open spec fn forced_rebuild(m: SurfaceModel) -> SurfaceModel {
    match m.pending_resize {
        None => SurfaceModel { rebuilds: (m.rebuilds + 1) as u64, ..m },
        Some(d) => SurfaceModel {
            width: d.0,
            height: d.1,
            pending_resize: None,
            rebuilds: (m.rebuilds + 1) as u64,
            ..m
        },
    }
}

/// The model after a whole burst of resize notifications, in order.
pub open spec fn notify_all(m: SurfaceModel, resizes: Seq<(u32, u32)>) -> SurfaceModel
    decreases resizes.len(),
{
    if resizes.len() == 0 {
        m
    } else {
        notify_step(notify_all(m, resizes.drop_last()), resizes.last().0, resizes.last().1)
    }
}

/// Owns the presentable surface, its swapchain configuration and the
/// currently acquired frame, and guarantees that a frame stays
/// acquirable unless the device is lost.
///
/// In the framework this state sits behind one exclusion guard shared
/// by acquisition, resize handling and presentation; the embedding
/// application provides that guard and drives this value under it.
pub struct SurfaceFrameManager {
    state: SurfaceState,
    width: u32,
    height: u32,
    pending_resize: Option<(u32, u32)>,
    rebuilds: u64,
    presents: u64,
    next_frame_id: u64,
    frame_id: u64,
}

impl View for SurfaceFrameManager {
    type V = SurfaceModel;

    closed spec fn view(&self) -> SurfaceModel {
        SurfaceModel {
            state: self.state,
            width: self.width,
            height: self.height,
            pending_resize: self.pending_resize,
            rebuilds: self.rebuilds,
            presents: self.presents,
            next_frame_id: self.next_frame_id,
            frame_id: self.frame_id,
        }
    }
}

impl SurfaceFrameManager {
    /// A manager with no surface yet.
    pub fn new() -> (m: SurfaceFrameManager)
        ensures
            m@ == (SurfaceModel {
                state: SurfaceState::Unconfigured,
                width: 0u32,
                height: 0u32,
                pending_resize: None::<(u32, u32)>,
                rebuilds: 0u64,
                presents: 0u64,
                next_frame_id: 0u64,
                frame_id: 0u64,
            }),
    {
        SurfaceFrameManager {
            state: SurfaceState::Unconfigured,
            width: 0,
            height: 0,
            pending_resize: None,
            rebuilds: 0,
            presents: 0,
            next_frame_id: 0,
            frame_id: 0,
        }
    }

    /// Creates the presentation surface and its backing swapchain at
    /// the given pixel dimensions, from the reported result of the
    /// platform's adapter and device negotiation.
    ///
    /// Fails with [`RendererError::DeviceInitError`] — leaving the
    /// manager unconfigured — exactly when negotiation failed; never
    /// retried internally.
    pub fn configure(
        &mut self,
        width: u32,
        height: u32,
        negotiation: DeviceNegotiation,
    ) -> (r: Result<(), RendererError>)
        requires
            old(self)@.state is Unconfigured,
            0 < width,
            0 < height,
        ensures
            negotiation is Success ==> r is Ok && final(self)@ == (SurfaceModel {
                state: SurfaceState::Configured,
                width,
                height,
                pending_resize: None::<(u32, u32)>,
                ..old(self)@
            }),
            !(negotiation is Success) ==> r == Err::<(), RendererError>(
                RendererError::DeviceInitError,
            ) && final(self)@ == old(self)@,
    {
        match negotiation {
            DeviceNegotiation::Success => {
                self.state = SurfaceState::Configured;
                self.width = width;
                self.height = height;
                self.pending_resize = None;
                Ok(())
            }
            _ => Err(RendererError::DeviceInitError),
        }
    }

    /// Records that the drawable size changed. The swapchain is not
    /// recreated here: a burst of notifications between two
    /// acquisitions collapses to a single rebuild, at the most recent
    /// dimensions, when the next frame is acquired.
    pub fn notify_resized(&mut self, width: u32, height: u32)
        requires
            !(old(self)@.state is Unconfigured),
        ensures
            final(self)@ == notify_step(old(self)@, width, height),
    {
        self.pending_resize = Some((width, height));
    }

    /// Acquires the next frame, from the swapchain's reported outcome.
    ///
    /// If a resize was recorded since the last acquisition, the
    /// swapchain is first torn down and recreated once, at the
    /// recorded dimensions. Fails with
    /// [`RendererError::FrameAcquisitionError`] — leaving the surface
    /// configured, the rebuild already applied — exactly when the
    /// platform reported the surface lost or timed out.
    pub fn acquire_frame(&mut self, outcome: AcquireOutcome) -> (r: Result<
        Frame,
        RendererError,
    >)
        requires
            old(self)@.state is Configured,
            old(self)@.rebuilds < u64::MAX,
            old(self)@.next_frame_id < u64::MAX,
        ensures
            outcome is Acquired ==> r is Ok && r->Ok_0.id() == apply_pending(
                old(self)@,
            ).next_frame_id && final(self)@ == (SurfaceModel {
                state: SurfaceState::FrameAcquired,
                next_frame_id: (apply_pending(old(self)@).next_frame_id + 1) as u64,
                frame_id: apply_pending(old(self)@).next_frame_id,
                ..apply_pending(old(self)@)
            }),
            outcome is SurfaceLost ==> r == Err::<Frame, RendererError>(
                RendererError::FrameAcquisitionError,
            ) && final(self)@ == apply_pending(old(self)@),
    {
        match self.pending_resize {
            Some(d) => {
                self.width = d.0;
                self.height = d.1;
                self.pending_resize = None;
                self.rebuilds = self.rebuilds + 1;
            }
            None => {}
        }
        match outcome {
            AcquireOutcome::Acquired => {
                let id = self.next_frame_id;
                self.state = SurfaceState::FrameAcquired;
                self.frame_id = id;
                self.next_frame_id = id + 1;
                Ok(Frame { id })
            }
            AcquireOutcome::SurfaceLost => Err(RendererError::FrameAcquisitionError),
        }
    }

    /// Tears down and recreates the swapchain immediately — at the
    /// recorded dimensions if a resize is pending, else at the current
    /// ones. Used once, internally to the renderer, when an
    /// acquisition fails before it is retried.
    pub fn force_rebuild(&mut self)
        requires
            old(self)@.state is Configured,
            old(self)@.rebuilds < u64::MAX,
        ensures
            final(self)@ == forced_rebuild(old(self)@),
    {
        match self.pending_resize {
            Some(d) => {
                self.width = d.0;
                self.height = d.1;
                self.pending_resize = None;
            }
            None => {}
        }
        self.rebuilds = self.rebuilds + 1;
    }

    /// Consumes the frame token, signaling the platform to display the
    /// image, and reports the platform's verdict. This is the only
    /// path by which a frame's lifetime ends; afterwards the surface
    /// is configured again with no frame outstanding, whether or not
    /// presentation succeeded. Fails with
    /// [`RendererError::PresentationError`] exactly when the platform
    /// rejected the call; the stale frame is discarded, not retried.
    pub fn present(&mut self, frame: Frame, outcome: PresentOutcome) -> (r: Result<
        (),
        RendererError,
    >)
        requires
            old(self)@.state is FrameAcquired,
            frame.id() == old(self)@.frame_id,
            old(self)@.presents < u64::MAX,
        ensures
            final(self)@ == (SurfaceModel {
                state: SurfaceState::Configured,
                presents: (old(self)@.presents + 1) as u64,
                ..old(self)@
            }),
            outcome is Displayed ==> r is Ok,
            outcome is Rejected ==> r == Err::<(), RendererError>(
                RendererError::PresentationError,
            ),
    {
        let _ = frame;
        self.state = SurfaceState::Configured;
        self.presents = self.presents + 1;
        match outcome {
            PresentOutcome::Displayed => Ok(()),
            PresentOutcome::Rejected => Err(RendererError::PresentationError),
        }
    }

    /// Lifecycle position.
    pub fn state(&self) -> (s: SurfaceState)
        ensures
            s == self@.state,
    {
        self.state
    }

    /// Current swapchain dimensions in pixels.
    pub fn viewport_dimensions(&self) -> (d: (u32, u32))
        ensures
            d.0 == self@.width,
            d.1 == self@.height,
    {
        (self.width, self.height)
    }

    /// How many times the swapchain was rebuilt since `configure`.
    pub fn rebuild_count(&self) -> (n: u64)
        ensures
            n == self@.rebuilds,
    {
        self.rebuilds
    }

    /// How many frames have been presented, successfully or not.
    pub fn present_count(&self) -> (n: u64)
        ensures
            n == self@.presents,
    {
        self.presents
    }

    /// How many frames have been acquired since creation — the id the
    /// next acquired frame will carry.
    pub fn acquired_count(&self) -> (n: u64)
        ensures
            n == self@.next_frame_id,
    {
        self.next_frame_id
    }
}

/// After any burst of notifications, only the pending slot differs,
/// and it holds the most recent dimensions.
proof fn lemma_notify_all_pending(m: SurfaceModel, resizes: Seq<(u32, u32)>)
    requires
        resizes.len() > 0,
    ensures
        notify_all(m, resizes) == (SurfaceModel {
            pending_resize: Some((resizes.last().0, resizes.last().1)),
            ..m
        }),
    decreases resizes.len(),
{
    reveal_with_fuel(notify_all, 2);
    if resizes.len() > 1 {
        lemma_notify_all_pending(m, resizes.drop_last());
    }
}

/// Resize coalescing law: for every sequence of resize notifications
/// between two acquisitions, the next acquisition performs exactly one
/// swapchain rebuild, at the most recent dimensions; with no
/// notification it performs none.
pub proof fn lemma_resize_coalescing(m: SurfaceModel, resizes: Seq<(u32, u32)>)
    requires
        m.pending_resize is None,
        m.rebuilds < u64::MAX,
    ensures
        resizes.len() > 0 ==> apply_pending(notify_all(m, resizes)) == (SurfaceModel {
            width: resizes.last().0,
            height: resizes.last().1,
            rebuilds: (m.rebuilds + 1) as u64,
            ..m
        }),
        resizes.len() == 0 ==> apply_pending(notify_all(m, resizes)) == m,
{
    if resizes.len() > 0 {
        lemma_notify_all_pending(m, resizes);
    }
}

} // verus!
