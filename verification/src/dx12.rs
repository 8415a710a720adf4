//! The Direct3D 12 style backend: a command recorder that translates each
//! abstract operation of [`crate::command`] into native command-list calls,
//! recorded as plain data by [`list::GraphicsCommandList`].

pub mod command;
pub mod kinds;
pub mod list;
pub mod native;
