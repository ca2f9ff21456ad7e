//! Graphics-context bootstrap core: instance/validation/debug startup protocol
//! for a Vulkan-backed renderer, verified against an explicit state model.

pub mod bootstrap;
pub mod driver;
pub mod error;
pub mod layers;
pub mod messenger;
pub mod support;
pub mod window;
pub mod wstring;
