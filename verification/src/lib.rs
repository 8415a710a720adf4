//! A graphics-API-agnostic command-buffer core.
//!
//! The crate defines a layered set of capability traits describing which
//! operations are legal on which kind of command buffer ([`command`]), a
//! backend recorder that translates each abstract operation into the native
//! command-list calls of a Direct3D 12 style backend ([`dx12`]), and a safe
//! recording wrapper that turns a finished recording into an opaque
//! submission token ([`command::Encoder`] and [`command::Submit`]).
//!
//! Native command lists live behind a driver boundary, so the backend module
//! models one as plain data: every native call the recorder would make is
//! captured as a value, and every contract states exactly which calls a
//! recording produces.

use vstd::prelude::*;

pub mod command;
pub mod dx12;
pub mod float_bits;
pub mod headless;
pub mod pso;
pub mod state;
pub mod target;

verus! {

/// Width of the entries of an index buffer: 16-bit or 32-bit unsigned.
#[derive(Copy, Clone, Debug, PartialEq, Eq, Structural)]
pub enum IndexType {
    /// 16-bit unsigned indices.
    U16,
    /// 32-bit unsigned indices.
    U32,
}

/// A count of vertices (or of indices) in a draw call.
pub type VertexCount = u32;

/// A count of instances in an instanced draw call.
pub type InstanceCount = u32;

/// The family of opaque per-backend resource handles.
///
/// A backend supplies one type implementing this trait; the capability
/// traits in [`command`] are generic over it, so the abstract interface
/// never names a concrete resource type.
pub trait Resources: Sized {
    /// A buffer resource handle.
    type Buffer;

    /// An image resource handle.
    type Image;

    /// A render-target view handle.
    type RenderTargetView;

    /// A depth-stencil view handle.
    type DepthStencilView;

    /// A pipeline state object handle.
    type PipelineStateObject;

    /// A render-pass handle.
    type RenderPass;
}

} // verus!
