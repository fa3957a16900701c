//! Frame-presentation control for a windowed renderer: the presentation
//! chain's capability check, the description of the per-image resources and
//! pre-recorded draw commands, the frame loop's state machine, and the choice
//! of a physical device.
pub mod device;
pub mod frame_loop;
pub mod loop_laws;
pub mod resources;
pub mod surface;
