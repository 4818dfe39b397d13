//! A verified engine for rendering motion-trail effects on decoded video
//! frames.
//!
//! The engine keeps a persistent canvas that accumulates trail state across a
//! frame sequence. Each incoming frame is compared against its predecessor to
//! build a motion mask, the canvas is updated according to the active effect
//! variant (stable burn-in, ghostly blend, colored tracer, or
//! brightness-priority compositing), and an output frame is produced.
//!
//! All fractional quantities (blend factors, decay magnitudes, hue angles) are
//! held in a binary fixed-point representation so that every per-pixel
//! computation is exact integer arithmetic with a proved contract.

pub mod blended;
pub mod colored;
pub mod decay;
pub mod engine;
pub mod fixed;
pub mod frame;
pub mod pixel;
pub mod priority;
pub mod settings;
pub mod stable;
pub mod utils;

pub use fixed::Fixed;
pub use frame::Frame;
pub use frame::frame_opaque;
pub use frame::same_dims;
pub use pixel::Px;
