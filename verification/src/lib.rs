//! A verified model of a minimal windowed rendering demo: one window, one
//! rendering pipeline, one document, and a single static scene of three
//! overlapping colored rectangles, redrawn every time the event loop wakes.
//!
//! The library holds everything the program decides or computes on plain
//! values: the geometry of the scene (`geom`, `scene`), the transactions sent
//! to the renderer (`scene`), the wake signals the render backend posts into
//! the event queue (`notify`), and the event-loop state machine (`driver`).
//! The windowing, GPU and rendering calls themselves are performed by an
//! unverified embedder that feeds events to, and carries out the actions of,
//! these functions.

pub mod driver;
pub mod geom;
pub mod notify;
pub mod scene;
