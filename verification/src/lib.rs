//! Rendering core of a 2D sprite framework layered above a low-level GPU
//! device API.
//!
//! The crate manages the lifecycle of a swapchain-backed presentation
//! surface, converts sprite draw requests into vertex/index data, and
//! batches consecutive compatible draws into minimal GPU submissions.
//! Platform work (adapter negotiation, frame acquisition, presentation)
//! is reported to the library as plain outcome values, so the decision
//! logic here is verified for every outcome the platform can produce.
//!
//! Geometry is carried in exact fixed-point integers (see [`math`]);
//! converting to and from the GPU's floating-point formats is the
//! embedding application's concern.

pub mod error;
pub mod math;
pub mod renderer;
pub mod sprite;
pub mod stream_render_buffer;
pub mod surface;
pub mod texture;
pub mod vertex;
