//! The decisions of a small custom-material demo, apart from the engine that
//! draws it: whether the debug inspector is shown after a frame, read from
//! the engine's keyboard state, and which binding of a prepared material
//! takes the per-frame uniform data.

pub mod inspector;
pub mod keyboard;
pub mod material;
