//! Verified decision core of a small Vulkan renderer that draws one quad.
//!
//! Everything in this crate is logic over plain values: which adapter to
//! open, how the swapchain is configured, what a frame records, and in
//! which order the synchronisation steps of a frame and the steps of a
//! swapchain rebuild may happen. Nothing here calls the graphics driver.
//! The code that does consumes the descriptions and actions of this crate
//! and reports back what the driver answered.
//!
//! * [`state`] is the frame orchestrator: a state machine that is told
//!   what the driver answered and says which call comes next. [`safety`]
//!   proves what it guarantees.
//! * [`device`] chooses the adapter and its queue families, [`swapchain`]
//!   configures the swapchain, its image views and framebuffers.
//! * [`instance`], [`render_pass`], [`pipeline`], [`shader`], [`cmd_pool`],
//!   [`queue`] and [`sync`] describe the other objects as the driver is
//!   to create them; [`command`] holds the commands of a recording.
//! * [`buffer`] lays out the upload of geometry through a staging buffer
//!   and [`staging`] says what the upload does to the buffers.
//! * [`lifecycle`] fixes the order in which everything comes and goes.
//! * [`float_bits`], [`endian`], [`push_constants`], [`geometry`],
//!   [`names`], [`version`] and [`window`] hold the values that cross the
//!   boundary: floats as bit patterns, words as bytes, names as bytes,
//!   packed versions, window events.
//!
//! Floats appear as their IEEE 754 bit patterns throughout, so that what
//! is handed to the GPU can be stated exactly.

pub mod buffer;
pub mod cmd_pool;
pub mod command;
pub mod device;
pub mod endian;
pub mod float_bits;
pub mod geometry;
pub mod instance;
pub mod lifecycle;
pub mod names;
pub mod pipeline;
pub mod push_constants;
pub mod queue;
pub mod render_pass;
pub mod safety;
pub mod shader;
pub mod staging;
pub mod state;
pub mod swapchain;
pub mod sync;
pub mod version;
pub mod window;
