//! The command buffer device interface.
//!
//! A layered set of capability traits describes which operations are legal
//! on which kind of command buffer. Each tier extends the one below it, and
//! a backend's concrete buffer kinds implement exactly the tiers their queue
//! family permits.
//!
//! Every recording operation carries the same protocol contract: the buffer
//! must still be in its recording session, and the backend must provide the
//! operation (`supports`). An operation a backend does not yet provide is
//! thereby impossible to call on it from verified code — missing backend
//! coverage surfaces when a caller is verified, never as a silently
//! corrupted command stream. Operations the backend does provide state, in
//! the implementation's `ensures`, exactly which native calls they record.

use vstd::prelude::*;
use crate::{IndexType, InstanceCount, Resources, VertexCount};
use crate::pso;
use crate::state;
use crate::target;

verus! {

/// Every operation of the capability surface, by name, so that contracts
/// can say which operations a backend provides.
#[derive(Copy, Clone, Debug, PartialEq, Eq, Structural)]
pub enum Operation {
    /// A pipeline barrier.
    PipelineBarrier,
    /// Execution of secondary command buffers.
    ExecuteCommands,
    /// An inline buffer update.
    UpdateBuffer,
    /// A buffer-to-buffer copy.
    CopyBuffer,
    /// An image-to-image copy.
    CopyImage,
    /// A buffer-to-image copy.
    CopyBufferToImage,
    /// An image-to-buffer copy.
    CopyImageToBuffer,
    /// A render-target clear.
    ClearColor,
    /// A buffer fill.
    ClearBuffer,
    /// Binding a pipeline state object.
    BindPipeline,
    /// Binding descriptor sets.
    BindDescriptorSets,
    /// Pushing inline constants.
    PushConstants,
    /// Clearing an attachment inside a render pass.
    ClearAttachment,
    /// A non-indexed draw.
    Draw,
    /// An indexed draw.
    DrawIndexed,
    /// An indirect draw.
    DrawIndirect,
    /// An indirect indexed draw.
    DrawIndexedIndirect,
    /// A compute dispatch.
    Dispatch,
    /// An indirect compute dispatch.
    DispatchIndirect,
    /// Binding an index buffer.
    BindIndexBuffer,
    /// Binding vertex buffers.
    BindVertexBuffers,
    /// Setting the viewports.
    SetViewports,
    /// Setting the scissor rectangles.
    SetScissors,
    /// Setting stencil/blend reference values.
    SetRefValues,
    /// Clearing a depth-stencil view.
    ClearDepthStencil,
    /// A multisample resolve.
    ResolveImage,
}

/// A universal clear color supporting integer formats as well as the
/// standard floating-point one. Floating-point components are carried as
/// IEEE-754 bit patterns, since verified code holds no float values.
#[derive(Copy, Clone, Debug, PartialEq)]
pub enum ClearColor {
    /// Bit patterns of a standard floating-point vec4 color.
    Float([u32; 4]),
    /// Integer vector to clear ivec4 targets.
    Int([i32; 4]),
    /// Unsigned int vector to clear uvec4 targets.
    Uint([u32; 4]),
}

/// Region of two buffers for copying.
#[derive(Copy, Clone, Debug, PartialEq)]
pub struct BufferCopy {
    /// Source offset, in bytes.
    pub src: usize,
    /// Destination offset, in bytes.
    pub dst: usize,
    /// Region size, in bytes.
    pub size: usize,
}

/// Optional instance parameters: (instance count, start instance). Absent
/// parameters mean exactly one instance starting at index 0.
pub type InstanceParams = (InstanceCount, VertexCount);

/// The capability root: every command buffer can end its recording session.
pub trait CommandBuffer: Sized {
    /// Whatever the backend needs to later execute the recorded commands.
    type SubmitInfo;

    /// The abstract value of a recording: whatever the backend counts as
    /// the sequence of operations recorded so far.
    type Model;

    /// The recording so far.
    spec fn model(&self) -> Self::Model;

    /// True while the buffer is inside its recording session, i.e. before
    /// `end` has been called.
    spec fn is_recording(&self) -> bool;

    /// True if this backend provides `op`. Every recording operation
    /// requires it, so an operation a backend does not provide cannot be
    /// called on that backend's buffers.
    spec fn supports(op: Operation) -> bool;

    /// True exactly of the submit information that ending a recording in
    /// this state produces.
    spec fn is_end_info(&self, info: &Self::SubmitInfo) -> bool;

    /// Finalize the recording session and produce the backend's submit
    /// information. Callable at most once per session: afterwards the
    /// buffer is no longer recording, and every operation (this one
    /// included) requires a recording buffer.
    fn end(&mut self) -> (info: Self::SubmitInfo)
        requires
            old(self).is_recording(),
        ensures
            !final(self).is_recording(),
            final(self).model() == old(self).model(),
            old(self).is_end_info(&info),
    ;
}

/// Operations legal only on buffers submitted directly to a queue.
pub trait PrimaryCommandBuffer<R: Resources>: CommandBuffer {
    /// Record a pipeline barrier.
    fn pipeline_barrier(&mut self)
        requires
            Self::supports(Operation::PipelineBarrier),
            old(self).is_recording(),
        ensures
            final(self).is_recording(),
    ;

    /// Record execution of secondary command buffers.
    fn execute_commands(&mut self)
        requires
            Self::supports(Operation::ExecuteCommands),
            old(self).is_recording(),
        ensures
            final(self).is_recording(),
    ;
}

/// The reduced primary-only subset for buffers executed from within another
/// buffer.
pub trait SecondaryCommandBuffer<R: Resources>: CommandBuffer {
    /// Record a pipeline barrier.
    fn pipeline_barrier(&mut self)
        requires
            Self::supports(Operation::PipelineBarrier),
            old(self).is_recording(),
        ensures
            final(self).is_recording(),
    ;
}

/// Transfer operations: buffer and image copies and updates.
pub trait TransferCommandBuffer<R: Resources>: PrimaryCommandBuffer<R> {
    /// The recording after `copy_buffer` on this state.
    spec fn copy_buffer_model(
        &self,
        src: &R::Buffer,
        dest: &R::Buffer,
        regions: Option<&[BufferCopy]>,
    ) -> Self::Model;

    /// Record an inline update of `buffer` at `offset` from `data`.
    fn update_buffer(&mut self, buffer: &R::Buffer, data: &[u8], offset: usize)
        requires
            Self::supports(Operation::UpdateBuffer),
            old(self).is_recording(),
        ensures
            final(self).is_recording(),
    ;

    /// Record a buffer-to-buffer copy. `None` copies the entire resource;
    /// `Some(regions)` copies each region independently. Regions that alias
    /// source and destination leave the copied contents undefined; avoiding
    /// that is the caller's obligation.
    fn copy_buffer(&mut self, src: &R::Buffer, dest: &R::Buffer, regions: Option<&[BufferCopy]>)
        requires
            Self::supports(Operation::CopyBuffer),
            old(self).is_recording(),
        ensures
            final(self).is_recording(),
            final(self).model() == old(self).copy_buffer_model(src, dest, regions),
    ;

    /// Record an image-to-image copy.
    fn copy_image(&mut self, src: &R::Image, dest: &R::Image)
        requires
            Self::supports(Operation::CopyImage),
            old(self).is_recording(),
        ensures
            final(self).is_recording(),
    ;

    /// Record a buffer-to-image copy.
    fn copy_buffer_to_image(&mut self)
        requires
            Self::supports(Operation::CopyBufferToImage),
            old(self).is_recording(),
        ensures
            final(self).is_recording(),
    ;

    /// Record an image-to-buffer copy.
    fn copy_image_to_buffer(&mut self)
        requires
            Self::supports(Operation::CopyImageToBuffer),
            old(self).is_recording(),
        ensures
            final(self).is_recording(),
    ;
}

/// Processing operations: clears, pipeline and descriptor binding.
pub trait ProcessingCommandBuffer<R: Resources>: TransferCommandBuffer<R> {
    /// The recording after `clear_color` on this state.
    spec fn clear_color_model(&self, rtv: &R::RenderTargetView, value: ClearColor) -> Self::Model;

    /// Record a clear of a render-target view to `value`.
    fn clear_color(&mut self, rtv: &R::RenderTargetView, value: ClearColor)
        requires
            Self::supports(Operation::ClearColor),
            old(self).is_recording(),
        ensures
            final(self).is_recording(),
            final(self).model() == old(self).clear_color_model(rtv, value),
    ;

    /// Record a buffer fill.
    fn clear_buffer(&mut self)
        requires
            Self::supports(Operation::ClearBuffer),
            old(self).is_recording(),
        ensures
            final(self).is_recording(),
    ;

    /// Record binding a pipeline state object.
    fn bind_pipeline(&mut self, pso: &R::PipelineStateObject)
        requires
            Self::supports(Operation::BindPipeline),
            old(self).is_recording(),
        ensures
            final(self).is_recording(),
    ;

    /// Record binding descriptor sets.
    fn bind_descriptor_sets(&mut self)
        requires
            Self::supports(Operation::BindDescriptorSets),
            old(self).is_recording(),
        ensures
            final(self).is_recording(),
    ;

    /// Record pushing inline constants.
    fn push_constants(&mut self)
        requires
            Self::supports(Operation::PushConstants),
            old(self).is_recording(),
        ensures
            final(self).is_recording(),
    ;
}

/// Compute operations.
pub trait ComputeCommandBuffer<R: Resources>: ProcessingCommandBuffer<R> {
    /// The recording after `dispatch` on this state.
    spec fn dispatch_model(&self, x: u32, y: u32, z: u32) -> Self::Model;

    /// Record a compute dispatch of `x * y * z` thread groups.
    fn dispatch(&mut self, x: u32, y: u32, z: u32)
        requires
            Self::supports(Operation::Dispatch),
            old(self).is_recording(),
        ensures
            final(self).is_recording(),
            final(self).model() == old(self).dispatch_model(x, y, z),
    ;

    /// Record an indirect compute dispatch.
    fn dispatch_indirect(&mut self)
        requires
            Self::supports(Operation::DispatchIndirect),
            old(self).is_recording(),
        ensures
            final(self).is_recording(),
    ;
}

/// Graphics state operations legal on primary buffers.
pub trait GraphicsCommandBuffer<R: Resources>: PrimaryCommandBuffer<R> {
    /// The recording after `bind_index_buffer` on this state.
    spec fn bind_index_buffer_model(&self, buffer: &R::Buffer, index_type: IndexType) -> Self::Model;

    /// The recording after `set_viewports` on this state.
    spec fn set_viewports_model(&self, viewports: &[target::Rect]) -> Self::Model;

    /// Record a clear of a depth-stencil view.
    fn clear_depth_stencil(
        &mut self,
        dsv: &R::DepthStencilView,
        depth: Option<target::Depth>,
        stencil: Option<target::Stencil>,
    )
        requires
            Self::supports(Operation::ClearDepthStencil),
            old(self).is_recording(),
        ensures
            final(self).is_recording(),
    ;

    /// Record a multisample resolve.
    fn resolve_image(&mut self)
        requires
            Self::supports(Operation::ResolveImage),
            old(self).is_recording(),
        ensures
            final(self).is_recording(),
    ;

    /// Record binding `buffer` as the index buffer, with entries read
    /// according to `index_type`.
    fn bind_index_buffer(&mut self, buffer: &R::Buffer, index_type: IndexType)
        requires
            Self::supports(Operation::BindIndexBuffer),
            old(self).is_recording(),
        ensures
            final(self).is_recording(),
            final(self).model() == old(self).bind_index_buffer_model(buffer, index_type),
    ;

    /// Record binding the given vertex buffers.
    fn bind_vertex_buffers(&mut self, vbs: pso::VertexBufferSet<R>)
        requires
            Self::supports(Operation::BindVertexBuffers),
            old(self).is_recording(),
        ensures
            final(self).is_recording(),
    ;

    /// Record setting the rasterizer viewports.
    fn set_viewports(&mut self, viewports: &[target::Rect])
        requires
            Self::supports(Operation::SetViewports),
            old(self).is_recording(),
        ensures
            final(self).is_recording(),
            final(self).model() == old(self).set_viewports_model(viewports),
    ;

    /// Record setting the scissor rectangles.
    fn set_scissors(&mut self, scissors: &[target::Rect])
        requires
            Self::supports(Operation::SetScissors),
            old(self).is_recording(),
        ensures
            final(self).is_recording(),
    ;

    /// Record setting stencil/blend reference values.
    fn set_ref_values(&mut self, rv: state::RefValues)
        requires
            Self::supports(Operation::SetRefValues),
            old(self).is_recording(),
        ensures
            final(self).is_recording(),
    ;
}

/// The draw-family subset usable inside a render-pass subpass.
pub trait SubpassCommandBuffer<R: Resources>: SecondaryCommandBuffer<R> {
    /// The recording after `draw` on this state.
    spec fn draw_model(
        &self,
        start: VertexCount,
        count: VertexCount,
        instances: Option<InstanceParams>,
    ) -> Self::Model;

    /// The recording after `draw_indexed` on this state.
    spec fn draw_indexed_model(
        &self,
        start: VertexCount,
        count: VertexCount,
        base: VertexCount,
        instances: Option<InstanceParams>,
    ) -> Self::Model;

    /// The recording after `bind_index_buffer` on this state.
    spec fn bind_index_buffer_model(&self, buffer: &R::Buffer, index_type: IndexType) -> Self::Model;

    /// The recording after `set_viewports` on this state.
    spec fn set_viewports_model(&self, viewports: &[target::Rect]) -> Self::Model;

    /// Record a clear of an attachment inside the render pass.
    fn clear_attachment(&mut self)
        requires
            Self::supports(Operation::ClearAttachment),
            old(self).is_recording(),
        ensures
            final(self).is_recording(),
    ;

    /// Record a draw of `count` vertices starting at `start`. Absent
    /// instance parameters mean one instance starting at index 0.
    fn draw(&mut self, start: VertexCount, count: VertexCount, instances: Option<InstanceParams>)
        requires
            Self::supports(Operation::Draw),
            old(self).is_recording(),
        ensures
            final(self).is_recording(),
            final(self).model() == old(self).draw_model(start, count, instances),
    ;

    /// Record an indexed draw of `count` indices starting at `start`, with
    /// `base` added to each index. Absent instance parameters mean one
    /// instance starting at index 0.
    fn draw_indexed(
        &mut self,
        start: VertexCount,
        count: VertexCount,
        base: VertexCount,
        instances: Option<InstanceParams>,
    )
        requires
            Self::supports(Operation::DrawIndexed),
            old(self).is_recording(),
        ensures
            final(self).is_recording(),
            final(self).model() == old(self).draw_indexed_model(start, count, base, instances),
    ;

    /// Record an indirect draw.
    fn draw_indirect(&mut self)
        requires
            Self::supports(Operation::DrawIndirect),
            old(self).is_recording(),
        ensures
            final(self).is_recording(),
    ;

    /// Record an indirect indexed draw.
    fn draw_indexed_indirect(&mut self)
        requires
            Self::supports(Operation::DrawIndexedIndirect),
            old(self).is_recording(),
        ensures
            final(self).is_recording(),
    ;

    /// Record binding `buffer` as the index buffer, with entries read
    /// according to `index_type`.
    fn bind_index_buffer(&mut self, buffer: &R::Buffer, index_type: IndexType)
        requires
            Self::supports(Operation::BindIndexBuffer),
            old(self).is_recording(),
        ensures
            final(self).is_recording(),
            final(self).model() == old(self).bind_index_buffer_model(buffer, index_type),
    ;

    /// Record binding the given vertex buffers.
    fn bind_vertex_buffers(&mut self, vbs: pso::VertexBufferSet<R>)
        requires
            Self::supports(Operation::BindVertexBuffers),
            old(self).is_recording(),
        ensures
            final(self).is_recording(),
    ;

    /// Record setting the rasterizer viewports.
    fn set_viewports(&mut self, viewports: &[target::Rect])
        requires
            Self::supports(Operation::SetViewports),
            old(self).is_recording(),
        ensures
            final(self).is_recording(),
            final(self).model() == old(self).set_viewports_model(viewports),
    ;

    /// Record setting the scissor rectangles.
    fn set_scissors(&mut self, scissors: &[target::Rect])
        requires
            Self::supports(Operation::SetScissors),
            old(self).is_recording(),
        ensures
            final(self).is_recording(),
    ;

    /// Record setting stencil/blend reference values.
    fn set_ref_values(&mut self, rv: state::RefValues)
        requires
            Self::supports(Operation::SetRefValues),
            old(self).is_recording(),
        ensures
            final(self).is_recording(),
    ;

    /// Record binding a pipeline state object.
    fn bind_pipeline(&mut self, pso: &R::PipelineStateObject)
        requires
            Self::supports(Operation::BindPipeline),
            old(self).is_recording(),
        ensures
            final(self).is_recording(),
    ;

    /// Record binding descriptor sets.
    fn bind_descriptor_sets(&mut self)
        requires
            Self::supports(Operation::BindDescriptorSets),
            old(self).is_recording(),
        ensures
            final(self).is_recording(),
    ;

    /// Record pushing inline constants.
    fn push_constants(&mut self)
        requires
            Self::supports(Operation::PushConstants),
            old(self).is_recording(),
        ensures
            final(self).is_recording(),
    ;
}

/// An encoder over a render pass, advancing through its subpasses.
pub trait RenderPassEncoder<C: GraphicsCommandBuffer<R>, R: Resources>: Sized {
    /// Begin the render pass on `buffer`.
    fn begin(buffer: &mut C, render_pass: &R::RenderPass) -> Self;

    /// Advance to the next subpass.
    fn next_subpass(&mut self);
}

/// Encoder wrapper for a command buffer, providing a safe interface.
///
/// The encoder owns the command buffer for the duration of the recording
/// session, so exclusive access is guaranteed by construction: no second
/// recorder can reach the same buffer. Finishing the recording consumes the
/// encoder — a second `finish` is not expressible — and returns a
/// thread-transferable [`Submit`] handle, which can be sent to a command
/// queue for execution.
pub struct Encoder<C: CommandBuffer> {
    buffer: C,
}

impl<C: CommandBuffer> Encoder<C> {
    /// The wrapped command buffer.
    pub closed spec fn buffer(&self) -> C {
        self.buffer
    }

    /// Take ownership of `buffer` for a recording session.
    pub fn new(buffer: C) -> (enc: Self)
        ensures
            enc.buffer() == buffer,
    {
        Encoder { buffer }
    }

    /// Finish recording commands to the command buffer, producing the
    /// submission handle for the recorded session.
    pub fn finish(self) -> (submit: Submit<C>)
        requires
            self.buffer().is_recording(),
        ensures
            self.buffer().is_end_info(&submit.info()),
    {
        let mut buffer = self.buffer;
        let info = buffer.end();
        Submit { info }
    }

    /// Record a pipeline barrier through the wrapped buffer.
    pub fn pipeline_barrier<R: Resources>(&mut self) where C: PrimaryCommandBuffer<R>
        requires
            C::supports(Operation::PipelineBarrier),
            old(self).buffer().is_recording(),
        ensures
            final(self).buffer().is_recording(),
    {
        self.buffer.pipeline_barrier()
    }

    /// Record execution of secondary command buffers through the wrapped
    /// buffer.
    pub fn execute_commands<R: Resources>(&mut self) where C: PrimaryCommandBuffer<R>
        requires
            C::supports(Operation::ExecuteCommands),
            old(self).buffer().is_recording(),
        ensures
            final(self).buffer().is_recording(),
    {
        self.buffer.execute_commands()
    }

    /// Record an inline buffer update through the wrapped buffer.
    pub fn update_buffer<R: Resources>(&mut self, buffer: &R::Buffer, data: &[u8], offset: usize) where
        C: TransferCommandBuffer<R>,

        requires
            C::supports(Operation::UpdateBuffer),
            old(self).buffer().is_recording(),
        ensures
            final(self).buffer().is_recording(),
    {
        self.buffer.update_buffer(buffer, data, offset)
    }

    /// Record a buffer-to-buffer copy through the wrapped buffer, exactly
    /// as the buffer itself records it.
    pub fn copy_buffer<R: Resources>(
        &mut self,
        src: &R::Buffer,
        dest: &R::Buffer,
        regions: Option<&[BufferCopy]>,
    ) where C: TransferCommandBuffer<R>
        requires
            C::supports(Operation::CopyBuffer),
            old(self).buffer().is_recording(),
        ensures
            final(self).buffer().is_recording(),
            final(self).buffer().model() == old(self).buffer().copy_buffer_model(
                src,
                dest,
                regions,
            ),
    {
        self.buffer.copy_buffer(src, dest, regions)
    }

    /// Record an image-to-image copy through the wrapped buffer.
    pub fn copy_image<R: Resources>(&mut self, src: &R::Image, dest: &R::Image) where
        C: TransferCommandBuffer<R>,

        requires
            C::supports(Operation::CopyImage),
            old(self).buffer().is_recording(),
        ensures
            final(self).buffer().is_recording(),
    {
        self.buffer.copy_image(src, dest)
    }

    /// Record a buffer-to-image copy through the wrapped buffer.
    pub fn copy_buffer_to_image<R: Resources>(&mut self) where C: TransferCommandBuffer<R>
        requires
            C::supports(Operation::CopyBufferToImage),
            old(self).buffer().is_recording(),
        ensures
            final(self).buffer().is_recording(),
    {
        self.buffer.copy_buffer_to_image()
    }

    /// Record an image-to-buffer copy through the wrapped buffer.
    pub fn copy_image_to_buffer<R: Resources>(&mut self) where C: TransferCommandBuffer<R>
        requires
            C::supports(Operation::CopyImageToBuffer),
            old(self).buffer().is_recording(),
        ensures
            final(self).buffer().is_recording(),
    {
        self.buffer.copy_image_to_buffer()
    }

    /// Record a render-target clear through the wrapped buffer, exactly as
    /// the buffer itself records it.
    pub fn clear_color<R: Resources>(&mut self, rtv: &R::RenderTargetView, value: ClearColor) where
        C: ProcessingCommandBuffer<R>,

        requires
            C::supports(Operation::ClearColor),
            old(self).buffer().is_recording(),
        ensures
            final(self).buffer().is_recording(),
            final(self).buffer().model() == old(self).buffer().clear_color_model(rtv, value),
    {
        self.buffer.clear_color(rtv, value)
    }

    /// Record a buffer fill through the wrapped buffer.
    pub fn clear_buffer<R: Resources>(&mut self) where C: ProcessingCommandBuffer<R>
        requires
            C::supports(Operation::ClearBuffer),
            old(self).buffer().is_recording(),
        ensures
            final(self).buffer().is_recording(),
    {
        self.buffer.clear_buffer()
    }

    /// Record binding a pipeline state object through the wrapped buffer.
    pub fn bind_pipeline<R: Resources>(&mut self, pso: &R::PipelineStateObject) where
        C: ProcessingCommandBuffer<R>,

        requires
            C::supports(Operation::BindPipeline),
            old(self).buffer().is_recording(),
        ensures
            final(self).buffer().is_recording(),
    {
        self.buffer.bind_pipeline(pso)
    }

    /// Record binding descriptor sets through the wrapped buffer.
    pub fn bind_descriptor_sets<R: Resources>(&mut self) where C: ProcessingCommandBuffer<R>
        requires
            C::supports(Operation::BindDescriptorSets),
            old(self).buffer().is_recording(),
        ensures
            final(self).buffer().is_recording(),
    {
        self.buffer.bind_descriptor_sets()
    }

    /// Record pushing inline constants through the wrapped buffer.
    pub fn push_constants<R: Resources>(&mut self) where C: ProcessingCommandBuffer<R>
        requires
            C::supports(Operation::PushConstants),
            old(self).buffer().is_recording(),
        ensures
            final(self).buffer().is_recording(),
    {
        self.buffer.push_constants()
    }

    /// Record a compute dispatch through the wrapped buffer, exactly as
    /// the buffer itself records it.
    pub fn dispatch<R: Resources>(&mut self, x: u32, y: u32, z: u32) where
        C: ComputeCommandBuffer<R>,

        requires
            C::supports(Operation::Dispatch),
            old(self).buffer().is_recording(),
        ensures
            final(self).buffer().is_recording(),
            final(self).buffer().model() == old(self).buffer().dispatch_model(x, y, z),
    {
        self.buffer.dispatch(x, y, z)
    }

    /// Record an indirect compute dispatch through the wrapped buffer.
    pub fn dispatch_indirect<R: Resources>(&mut self) where C: ComputeCommandBuffer<R>
        requires
            C::supports(Operation::DispatchIndirect),
            old(self).buffer().is_recording(),
        ensures
            final(self).buffer().is_recording(),
    {
        self.buffer.dispatch_indirect()
    }

    /// Record a depth-stencil clear through the wrapped buffer.
    pub fn clear_depth_stencil<R: Resources>(
        &mut self,
        dsv: &R::DepthStencilView,
        depth: Option<target::Depth>,
        stencil: Option<target::Stencil>,
    ) where C: GraphicsCommandBuffer<R>
        requires
            C::supports(Operation::ClearDepthStencil),
            old(self).buffer().is_recording(),
        ensures
            final(self).buffer().is_recording(),
    {
        self.buffer.clear_depth_stencil(dsv, depth, stencil)
    }

    /// Record a multisample resolve through the wrapped buffer.
    pub fn resolve_image<R: Resources>(&mut self) where C: GraphicsCommandBuffer<R>
        requires
            C::supports(Operation::ResolveImage),
            old(self).buffer().is_recording(),
        ensures
            final(self).buffer().is_recording(),
    {
        self.buffer.resolve_image()
    }

    /// Record binding an index buffer through the wrapped buffer, exactly
    /// as the buffer itself records it.
    pub fn bind_index_buffer<R: Resources>(&mut self, buffer: &R::Buffer, index_type: IndexType) where
        C: GraphicsCommandBuffer<R>,

        requires
            C::supports(Operation::BindIndexBuffer),
            old(self).buffer().is_recording(),
        ensures
            final(self).buffer().is_recording(),
            final(self).buffer().model() == old(self).buffer().bind_index_buffer_model(
                buffer,
                index_type,
            ),
    {
        self.buffer.bind_index_buffer(buffer, index_type)
    }

    /// Record binding vertex buffers through the wrapped buffer.
    pub fn bind_vertex_buffers<R: Resources>(&mut self, vbs: pso::VertexBufferSet<R>) where
        C: GraphicsCommandBuffer<R>,

        requires
            C::supports(Operation::BindVertexBuffers),
            old(self).buffer().is_recording(),
        ensures
            final(self).buffer().is_recording(),
    {
        self.buffer.bind_vertex_buffers(vbs)
    }

    /// Record setting the viewports through the wrapped buffer, exactly as
    /// the buffer itself records it.
    pub fn set_viewports<R: Resources>(&mut self, viewports: &[target::Rect]) where
        C: GraphicsCommandBuffer<R>,

        requires
            C::supports(Operation::SetViewports),
            old(self).buffer().is_recording(),
        ensures
            final(self).buffer().is_recording(),
            final(self).buffer().model() == old(self).buffer().set_viewports_model(viewports),
    {
        self.buffer.set_viewports(viewports)
    }

    /// Record setting the scissor rectangles through the wrapped buffer.
    pub fn set_scissors<R: Resources>(&mut self, scissors: &[target::Rect]) where
        C: GraphicsCommandBuffer<R>,

        requires
            C::supports(Operation::SetScissors),
            old(self).buffer().is_recording(),
        ensures
            final(self).buffer().is_recording(),
    {
        self.buffer.set_scissors(scissors)
    }

    /// Record setting reference values through the wrapped buffer.
    pub fn set_ref_values<R: Resources>(&mut self, rv: state::RefValues) where
        C: GraphicsCommandBuffer<R>,

        requires
            C::supports(Operation::SetRefValues),
            old(self).buffer().is_recording(),
        ensures
            final(self).buffer().is_recording(),
    {
        self.buffer.set_ref_values(rv)
    }

    /// Record an attachment clear through the wrapped buffer.
    pub fn clear_attachment<R: Resources>(&mut self) where C: SubpassCommandBuffer<R>
        requires
            C::supports(Operation::ClearAttachment),
            old(self).buffer().is_recording(),
        ensures
            final(self).buffer().is_recording(),
    {
        self.buffer.clear_attachment()
    }

    /// Record a draw through the wrapped buffer, exactly as the buffer
    /// itself records it.
    pub fn draw<R: Resources>(
        &mut self,
        start: VertexCount,
        count: VertexCount,
        instances: Option<InstanceParams>,
    ) where C: SubpassCommandBuffer<R>
        requires
            C::supports(Operation::Draw),
            old(self).buffer().is_recording(),
        ensures
            final(self).buffer().is_recording(),
            final(self).buffer().model() == old(self).buffer().draw_model(start, count, instances),
    {
        self.buffer.draw(start, count, instances)
    }

    /// Record an indexed draw through the wrapped buffer, exactly as the
    /// buffer itself records it.
    pub fn draw_indexed<R: Resources>(
        &mut self,
        start: VertexCount,
        count: VertexCount,
        base: VertexCount,
        instances: Option<InstanceParams>,
    ) where C: SubpassCommandBuffer<R>
        requires
            C::supports(Operation::DrawIndexed),
            old(self).buffer().is_recording(),
        ensures
            final(self).buffer().is_recording(),
            final(self).buffer().model() == old(self).buffer().draw_indexed_model(
                start,
                count,
                base,
                instances,
            ),
    {
        self.buffer.draw_indexed(start, count, base, instances)
    }

    /// Record an indirect draw through the wrapped buffer.
    pub fn draw_indirect<R: Resources>(&mut self) where C: SubpassCommandBuffer<R>
        requires
            C::supports(Operation::DrawIndirect),
            old(self).buffer().is_recording(),
        ensures
            final(self).buffer().is_recording(),
    {
        self.buffer.draw_indirect()
    }

    /// Record an indirect indexed draw through the wrapped buffer.
    pub fn draw_indexed_indirect<R: Resources>(&mut self) where C: SubpassCommandBuffer<R>
        requires
            C::supports(Operation::DrawIndexedIndirect),
            old(self).buffer().is_recording(),
        ensures
            final(self).buffer().is_recording(),
    {
        self.buffer.draw_indexed_indirect()
    }
}

/// A finished recording: wraps the backend's submit information, with no
/// recording state left, so the handle may cross threads and is consumed by
/// queue submission.
pub struct Submit<C: CommandBuffer> {
    info: C::SubmitInfo,
}

impl<C: CommandBuffer> Submit<C> {
    /// The wrapped submit information.
    pub closed spec fn info(&self) -> C::SubmitInfo {
        self.info
    }

    /// Privileged accessor reserved for the queue-submission collaborator;
    /// ordinary callers pass the handle onward opaquely.
    pub fn get_info(&self) -> (info: &C::SubmitInfo)
        ensures
            *info == self.info(),
    {
        &self.info
    }
}

} // verus!
