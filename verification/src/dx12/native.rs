//! The backend's resource handles.
//!
//! Real resources live behind the driver boundary; the command-buffer core
//! only ever reads their native identity, their GPU-visible address and,
//! for buffers, their byte size, so a handle is modeled as exactly those
//! plain values.

use vstd::prelude::*;

verus! {

/// An opaque native resource: its pointer identity and its GPU-visible
/// address.
#[derive(Copy, Clone, Debug, PartialEq)]
pub struct ResourceHandle {
    /// The native resource's pointer identity; recorded calls name the
    /// resource by this value.
    pub id: u64,
    /// The GPU-visible address of the resource's first byte.
    pub gpu_address: u64,
}

impl ResourceHandle {
    /// The GPU-visible address of the resource.
    pub fn gpu_virtual_address(&self) -> (address: u64)
        ensures
            address == self.gpu_address,
    {
        self.gpu_address
    }
}

/// A buffer resource: its native resource and its declared size in bytes.
#[derive(Copy, Clone, Debug, PartialEq)]
pub struct Buffer {
    /// The underlying native resource.
    pub resource: ResourceHandle,
    /// The buffer's size, in bytes.
    pub size: u32,
}

/// An image resource.
#[derive(Copy, Clone, Debug, PartialEq)]
pub struct Image {
    /// The underlying native resource.
    pub resource: ResourceHandle,
}

/// A render-target view, named by its descriptor handle.
#[derive(Copy, Clone, Debug, PartialEq)]
pub struct RenderTargetView {
    /// The view's CPU descriptor handle.
    pub handle: u64,
}

/// A pipeline state object, named by its native identity.
#[derive(Copy, Clone, Debug, PartialEq)]
pub struct Pipeline {
    /// The pipeline's native identity.
    pub id: u64,
}

/// The backend's resource family.
#[derive(Copy, Clone, Debug, PartialEq)]
pub struct Resources;

impl crate::Resources for Resources {
    type Buffer = Buffer;

    type Image = Image;

    type RenderTargetView = RenderTargetView;

    type DepthStencilView = ();

    type PipelineStateObject = Pipeline;

    type RenderPass = ();
}

} // verus!
