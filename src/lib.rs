pub mod capture;
pub mod capture_plan;
pub mod descriptors;
pub mod device_info;
pub mod engine;
pub mod fft;
pub mod frame;
pub mod geometry;
pub mod pipeline;
pub mod push_constant;
pub mod readback;
pub mod screen;
pub mod screenshot;
pub mod teardown;
