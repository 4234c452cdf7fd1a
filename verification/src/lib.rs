pub mod control;
pub mod event;
pub mod hook;
pub mod keys;
pub mod laws;
pub mod relay;
pub mod render;
pub mod toggle;
