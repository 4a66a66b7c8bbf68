//! Core of a capped-rate frame presentation loop: a throttle that caps
//! render cycles at a target period, a surface-configuration
//! manager that clamps and reapplies sizes on resize, a render-cycle
//! protocol tracker, a frame-rate counter, and the scheduler state machine
//! that ties them together. Window, device and queue handles are opaque
//! collaborators owned by the surrounding program.

pub mod clock;
pub mod frame_counter;
pub mod gate;
pub mod presenter;
pub mod scheduler;
pub mod surface;
