//! A safe façade over a platform audio subsystem: stream format negotiation,
//! render-buffer bridging rules, and device discovery and default-device
//! selection over an address-keyed property space.

pub mod format;
pub mod property;
pub mod string_wrapper;
pub mod audio_objects;
pub mod stream;
