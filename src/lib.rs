//! Control plane for a locally run proxy core: persisted settings, the
//! synthesis of the core's running configuration, subscription profiles and
//! the decisions of the process controller.

pub mod api;
pub mod controller;
pub mod json;
pub mod settings;
pub mod subscriptions;
pub mod synth;
pub mod text;
pub mod utils;
pub mod yaml;
