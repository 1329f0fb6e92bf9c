//! Capturing the screen through the desktop portal.
//!
//! The library keeps the state of a capture and decides what is done next. It sends no message and
//! reads no clock: its caller does that, hands in what came, and is told what to do.
pub mod call_laws;
pub mod calls;
pub mod capture;
pub mod dbus_util;
pub mod device_types;
pub mod dyn_map;
pub mod frame;
pub mod laws;
pub mod matcher_laws;
pub mod message;
pub mod object_path;
pub mod park;
pub mod picture_laws;
pub mod portal;
pub mod request_laws;
pub mod session;
pub mod session_laws;
pub mod source_types;
pub mod text;
pub mod text_laws;
pub mod typing;
pub mod typing_laws;
