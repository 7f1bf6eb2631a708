//! What the renderers decide.

pub mod dx11;
pub mod dx12;
pub mod hdr;
pub mod layers;
