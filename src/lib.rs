//! Control plane for a single auxiliary desktop window.
//!
//! The library decides what a window's state must become for each request
//! and which host call gets it there; the host runtime performs the call and
//! reports back. Requests come over a loopback HTTP API whose routing and
//! body checks are also decided here.

pub mod api;
pub mod config;
pub mod controller;
pub mod registry;

pub use api::{
    classify_request, decode_request, json_media, operation_of, route, status_reply, Endpoint,
    Rejection,
    StatusReply,
};
pub use config::{content_root, port_from_setting, DEFAULT_PORT};
pub use controller::{
    chat_window_label, window_config, ControlResponse, HostCall, Operation, WindowConfig,
    WindowController, WindowState,
};
pub use registry::{Visibility, WindowHandle, WindowRegistry};
