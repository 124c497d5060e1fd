//! Presentation-loop core for a real-time graphics application: swapchain
//! lifecycle, framebuffer construction from a render-pass description, and
//! per-frame command recording and submission.
//!
//! The library holds the decision logic of the loop — which image is acquired,
//! when the swapchain must be rebuilt, what a recorded frame contains, and how
//! flush failures are downgraded — over plain values. The host application
//! owns the graphics device, performs the device and window-system calls, and
//! reports their outcomes back as events.

pub mod command_buffer;
pub mod errors;
pub mod extent;
pub mod framebuffer;
pub mod render_pass;
pub mod window;
