//! The GL ES 2.0 backend: its configuration, the device context and the
//! queries that the device answers without calling into GL.
pub mod api;
pub mod device_context;
