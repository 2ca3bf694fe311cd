//! A minimal immediate-mode 2D rendering engine core.
//!
//! A per-frame API lets a caller describe filled shapes (circles,
//! rectangles, quads, triangles) in a normalized coordinate space; the
//! engine tessellates them into a vertex/index mesh and drives the
//! per-frame protocol (acquire, update, upload, submit, present) through
//! an explicit, verified state machine.  The platform-facing work
//! (window, GPU queue, presentation) is performed by the embedding
//! program, which feeds the outcomes of those operations back into the
//! state machine as plain values.
//!
//! Coordinates, colors and angles are Q16.16 fixed-point values: the
//! constant [`fixed::ONE`] stands for 1.0 in the normalized space where
//! the vertical extent is `[-1, 1]` and the horizontal extent is
//! `[-aspect, aspect]`.

pub mod context;
pub mod demo;
pub mod device;
pub mod error;
pub mod fixed;
pub mod geometry;
pub mod scheduler;
pub mod shapes;

pub use context::GraphicsContext;
pub use demo::DemoApp;
pub use device::select_composite_alpha;
pub use device::select_graphics_queue_family;
pub use device::select_surface_format;
pub use error::PumiceError;
pub use error::PumiceResult;
pub use fixed::Point;
pub use fixed::ONE;
pub use fixed::TOLERANCE;
pub use fixed::Size;
pub use geometry::Color;
pub use geometry::GeometryBuffer;
pub use geometry::Rot;
pub use geometry::Rotation;
pub use geometry::Vertex;
pub use scheduler::AcquireOutcome;
pub use scheduler::App;
pub use scheduler::Event;
pub use scheduler::FlushOutcome;
pub use scheduler::extent_usable;
pub use scheduler::FrameInputs;
pub use scheduler::PendingFrame;
pub use scheduler::RunOutcome;
pub use scheduler::RunReport;
