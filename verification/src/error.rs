//! Error taxonomy of the rendering core.

use vstd::prelude::*;

verus! {

/// Errors produced while driving the presentation surface and the
/// sprite pipeline.
///
/// Every platform failure is surfaced through one of these variants;
/// none is swallowed inside the library.
#[derive(Clone, Copy, Debug, PartialEq, Eq, Structural)]
pub enum RendererError {
    /// Adapter or device negotiation failed while configuring the
    /// surface: no compatible GPU was found, or device creation was
    /// rejected. Fatal; never retried internally.
    DeviceInitError,
    /// The swapchain reported the surface as lost or timed out when a
    /// frame was requested. The renderer retries once after a forced
    /// swapchain rebuild before surfacing this.
    FrameAcquisitionError,
    /// The presentation call itself was rejected by the platform. The
    /// stale frame is discarded; the surface stays configured.
    PresentationError,
    /// A draw operation was invoked with no active frame or draw
    /// context. The scoped [`crate::renderer::RenderContext`] prevents
    /// this structurally for code that goes through it; the variant
    /// exists so that an embedding which bypasses the scoped context
    /// can surface the contract violation instead of ignoring it.
    RenderTargetError,
}

impl RendererError {
    /// A short stable name for the error, for logs and messages.
    pub fn name(&self) -> (r: &'static str)
        ensures
            self is DeviceInitError ==> r@ == "device init error"@,
            self is FrameAcquisitionError ==> r@ == "frame acquisition error"@,
            self is PresentationError ==> r@ == "presentation error"@,
            self is RenderTargetError ==> r@ == "render target error"@,
    {
        match self {
            RendererError::DeviceInitError => "device init error",
            RendererError::FrameAcquisitionError => "frame acquisition error",
            RendererError::PresentationError => "presentation error",
            RendererError::RenderTargetError => "render target error",
        }
    }
}

/// Errors common to the framework layers around the renderer: an I/O
/// failure, or any other failure carried as a message.
#[derive(Debug, PartialEq, Eq)]
pub enum CommonError {
    /// An I/O failure, described by its message.
    Io(String),
    /// Any other failure, described by its message.
    Common(String),
}

impl CommonError {
    /// Wraps an I/O failure message.
    pub fn io(message: String) -> (e: CommonError)
        ensures
            e == (CommonError::Io(message)),
    {
        CommonError::Io(message)
    }

    /// Wraps a general failure message.
    pub fn common(message: String) -> (e: CommonError)
        ensures
            e == (CommonError::Common(message)),
    {
        CommonError::Common(message)
    }

    /// The message carried by the error.
    pub fn message(&self) -> (m: &String)
        ensures
            self is Io ==> m == self->Io_0,
            self is Common ==> m == self->Common_0,
    {
        match self {
            CommonError::Io(m) => m,
            CommonError::Common(m) => m,
        }
    }
}

} // verus!
