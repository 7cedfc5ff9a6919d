pub mod ffi;
pub mod loader;
pub mod plugin;
pub mod ring_buffer;
pub mod wrapper;
