//! A registry of editor plugins that routes requests to the plugin best able to serve them.

pub mod fabric;
pub mod fabric_types;
pub mod inner;
pub mod laws;
mod lock;
pub mod model;
pub mod routing;
pub mod text;
