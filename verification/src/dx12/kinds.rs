//! The backend's concrete command-buffer kinds and their capabilities.
//!
//! A command buffer of kind `K` wraps the raw recorder; marker traits on
//! the kind state which capability tiers its queue family permits, and one
//! interface implementation per tier delegates to the recorder for every
//! kind carrying the tier's marker. The marker implementations below are
//! therefore the capability table of the interface, line for line.

use vstd::prelude::*;
use core::marker::PhantomData;
use crate::command;
use crate::command::{BufferCopy, ClearColor, InstanceParams, Operation};
use crate::pso::VertexBufferSet;
use crate::state::RefValues;
use crate::target::{Depth, Rect, Stencil};
use crate::{IndexType, VertexCount};
use super::command::{
    bind_index_buffer_call,
    clear_color_call,
    copy_buffer_calls,
    dispatch_call,
    draw_call,
    draw_indexed_call,
    regions_model,
    set_viewports_call,
    CommandBuffer,
    SubmitInfo,
};
use super::list::CommandModel;
use super::native::{Buffer, Image, Pipeline, RenderTargetView, Resources};

verus! {

/// Kind of buffers recorded for a general queue.
pub struct General;

/// Kind of buffers recorded for a graphics queue.
pub struct Graphics;

/// Kind of buffers recorded for a compute queue.
pub struct Compute;

/// Kind of buffers recorded for a transfer queue.
pub struct Transfer;

/// Kind of buffers executed inside a render-pass subpass.
pub struct Subpass;

/// Kinds whose buffers submit directly to a queue.
pub trait PrimaryKind {

}

/// Kinds whose buffers execute only from within another buffer.
pub trait SecondaryKind {

}

/// Kinds whose buffers may record transfer operations.
pub trait TransferKind: PrimaryKind {

}

/// Kinds whose buffers may record processing operations.
pub trait ProcessingKind: TransferKind {

}

/// Kinds whose buffers may record compute dispatches.
pub trait ComputeKind: ProcessingKind {

}

/// Kinds whose buffers may record graphics state operations.
pub trait GraphicsKind: PrimaryKind {

}

/// Kinds whose buffers may record the subpass draw family.
pub trait SubpassKind: SecondaryKind {

}

impl PrimaryKind for General {

}

impl PrimaryKind for Graphics {

}

impl PrimaryKind for Compute {

}

impl PrimaryKind for Transfer {

}

impl SecondaryKind for Subpass {

}

impl TransferKind for General {

}

impl TransferKind for Graphics {

}

impl TransferKind for Compute {

}

impl TransferKind for Transfer {

}

impl ProcessingKind for General {

}

impl ProcessingKind for Graphics {

}

impl ProcessingKind for Compute {

}

impl ComputeKind for General {

}

impl ComputeKind for Compute {

}

impl GraphicsKind for General {

}

impl GraphicsKind for Graphics {

}

impl SubpassKind for Subpass {

}

/// The operations this backend currently provides. Every interface method
/// requires the operation it records to be provided, so an operation
/// outside this set cannot be recorded here: missing backend coverage is a
/// verification-time error for the caller, never a silent no-op.
pub open spec fn op_supported(op: Operation) -> bool {
    match op {
        Operation::CopyBuffer => true,
        Operation::ClearColor => true,
        Operation::Draw => true,
        Operation::DrawIndexed => true,
        Operation::Dispatch => true,
        Operation::BindIndexBuffer => true,
        Operation::SetViewports => true,
        _ => false,
    }
}

/// A command buffer of kind `K`: the raw recorder, exposed through exactly
/// the capability tiers `K`'s markers claim.
#[verifier::reject_recursive_types(K)]
pub struct TypedCommandBuffer<K> {
    /// The raw backend recorder.
    pub raw: CommandBuffer,
    /// Zero-sized witness of the buffer's kind.
    pub kind: PhantomData<K>,
}

impl<K> TypedCommandBuffer<K> {
    /// Wrap a raw recorder as a buffer of kind `K`.
    pub fn new(raw: CommandBuffer) -> (buffer: Self)
        ensures
            buffer.raw == raw,
    {
        TypedCommandBuffer { raw, kind: PhantomData }
    }
}

impl<K> command::CommandBuffer for TypedCommandBuffer<K> {
    type SubmitInfo = SubmitInfo;

    type Model = Seq<CommandModel>;

    open spec fn model(&self) -> Seq<CommandModel> {
        self.raw.model()
    }

    open spec fn is_recording(&self) -> bool {
        self.raw.is_recording()
    }

    open spec fn supports(op: Operation) -> bool {
        op_supported(op)
    }

    open spec fn is_end_info(&self, info: &SubmitInfo) -> bool {
        info.0.model() == self.raw.model() && !info.0.is_recording()
    }

    fn end(&mut self) -> (info: SubmitInfo)
        ensures
            info.0.model() == old(self).raw.model(),
            !info.0.is_recording(),
    {
        self.raw.end()
    }
}

impl<K: PrimaryKind> command::PrimaryCommandBuffer<Resources> for TypedCommandBuffer<K> {
    fn pipeline_barrier(&mut self) {
        // Not yet provided by this backend; `supports` denies the
        // operation, so no verified caller reaches this body.
    }

    fn execute_commands(&mut self) {
        // Not yet provided by this backend; unreachable, as above.
    }
}

impl<K: SecondaryKind> command::SecondaryCommandBuffer<Resources> for TypedCommandBuffer<K> {
    fn pipeline_barrier(&mut self) {
        // Not yet provided by this backend; unreachable, as above.
    }
}

impl<K: TransferKind> command::TransferCommandBuffer<Resources> for TypedCommandBuffer<K> {
    open spec fn copy_buffer_model(
        &self,
        src: &Buffer,
        dest: &Buffer,
        regions: Option<&[BufferCopy]>,
    ) -> Seq<CommandModel> {
        self.raw.model() + copy_buffer_calls(*src, *dest, regions_model(regions))
    }

    fn update_buffer(&mut self, _buffer: &Buffer, _data: &[u8], _offset: usize) {
        // Not yet provided by this backend; unreachable, as above.
    }

    fn copy_buffer(&mut self, src: &Buffer, dest: &Buffer, regions: Option<&[BufferCopy]>) {
        self.raw.copy_buffer(src, dest, regions)
    }

    fn copy_image(&mut self, _src: &Image, _dest: &Image) {
        // Not yet provided by this backend; unreachable, as above.
    }

    fn copy_buffer_to_image(&mut self) {
        // Not yet provided by this backend; unreachable, as above.
    }

    fn copy_image_to_buffer(&mut self) {
        // Not yet provided by this backend; unreachable, as above.
    }
}

impl<K: ProcessingKind> command::ProcessingCommandBuffer<Resources> for TypedCommandBuffer<K> {
    open spec fn clear_color_model(&self, rtv: &RenderTargetView, value: ClearColor) -> Seq<
        CommandModel,
    > {
        self.raw.model().push(clear_color_call(*rtv, value))
    }

    fn clear_color(&mut self, rtv: &RenderTargetView, value: ClearColor) {
        self.raw.clear_color(rtv, value)
    }

    fn clear_buffer(&mut self) {
        // Not yet provided by this backend; unreachable, as above.
    }

    fn bind_pipeline(&mut self, _pso: &Pipeline) {
        // Not yet provided by this backend; unreachable, as above.
    }

    fn bind_descriptor_sets(&mut self) {
        // Not yet provided by this backend; unreachable, as above.
    }

    fn push_constants(&mut self) {
        // Not yet provided by this backend; unreachable, as above.
    }
}

impl<K: ComputeKind> command::ComputeCommandBuffer<Resources> for TypedCommandBuffer<K> {
    open spec fn dispatch_model(&self, x: u32, y: u32, z: u32) -> Seq<CommandModel> {
        self.raw.model().push(dispatch_call(x, y, z))
    }

    fn dispatch(&mut self, x: u32, y: u32, z: u32) {
        self.raw.dispatch(x, y, z)
    }

    fn dispatch_indirect(&mut self) {
        // Not yet provided by this backend; unreachable, as above.
    }
}

impl<K: GraphicsKind> command::GraphicsCommandBuffer<Resources> for TypedCommandBuffer<K> {
    open spec fn bind_index_buffer_model(&self, buffer: &Buffer, index_type: IndexType) -> Seq<
        CommandModel,
    > {
        self.raw.model().push(bind_index_buffer_call(*buffer, index_type))
    }

    open spec fn set_viewports_model(&self, viewports: &[Rect]) -> Seq<CommandModel> {
        self.raw.model().push(set_viewports_call(viewports@))
    }

    fn clear_depth_stencil(&mut self, _dsv: &(), _depth: Option<Depth>, _stencil: Option<Stencil>) {
        // Not yet provided by this backend; unreachable, as above.
    }

    fn resolve_image(&mut self) {
        // Not yet provided by this backend; unreachable, as above.
    }

    fn bind_index_buffer(&mut self, buffer: &Buffer, index_type: IndexType) {
        self.raw.bind_index_buffer(buffer, index_type)
    }

    fn bind_vertex_buffers(&mut self, _vbs: VertexBufferSet<Resources>) {
        // Not yet provided by this backend; unreachable, as above.
    }

    fn set_viewports(&mut self, viewports: &[Rect]) {
        self.raw.set_viewports(viewports)
    }

    fn set_scissors(&mut self, _scissors: &[Rect]) {
        // Not yet provided by this backend; unreachable, as above.
    }

    fn set_ref_values(&mut self, _rv: RefValues) {
        // Not yet provided by this backend; unreachable, as above.
    }
}

impl<K: SubpassKind> command::SubpassCommandBuffer<Resources> for TypedCommandBuffer<K> {
    open spec fn draw_model(
        &self,
        start: VertexCount,
        count: VertexCount,
        instances: Option<InstanceParams>,
    ) -> Seq<CommandModel> {
        self.raw.model().push(draw_call(start, count, instances))
    }

    open spec fn draw_indexed_model(
        &self,
        start: VertexCount,
        count: VertexCount,
        base: VertexCount,
        instances: Option<InstanceParams>,
    ) -> Seq<CommandModel> {
        self.raw.model().push(draw_indexed_call(start, count, base, instances))
    }

    open spec fn bind_index_buffer_model(&self, buffer: &Buffer, index_type: IndexType) -> Seq<
        CommandModel,
    > {
        self.raw.model().push(bind_index_buffer_call(*buffer, index_type))
    }

    open spec fn set_viewports_model(&self, viewports: &[Rect]) -> Seq<CommandModel> {
        self.raw.model().push(set_viewports_call(viewports@))
    }

    fn clear_attachment(&mut self) {
        // Not yet provided by this backend; unreachable, as above.
    }

    fn draw(&mut self, start: VertexCount, count: VertexCount, instances: Option<InstanceParams>) {
        self.raw.draw(start, count, instances)
    }

    fn draw_indexed(
        &mut self,
        start: VertexCount,
        count: VertexCount,
        base: VertexCount,
        instances: Option<InstanceParams>,
    ) {
        self.raw.draw_indexed(start, count, base, instances)
    }

    fn draw_indirect(&mut self) {
        // Not yet provided by this backend; unreachable, as above.
    }

    fn draw_indexed_indirect(&mut self) {
        // Not yet provided by this backend; unreachable, as above.
    }

    fn bind_index_buffer(&mut self, buffer: &Buffer, index_type: IndexType) {
        self.raw.bind_index_buffer(buffer, index_type)
    }

    fn bind_vertex_buffers(&mut self, _vbs: VertexBufferSet<Resources>) {
        // Not yet provided by this backend; unreachable, as above.
    }

    fn set_viewports(&mut self, viewports: &[Rect]) {
        self.raw.set_viewports(viewports)
    }

    fn set_scissors(&mut self, _scissors: &[Rect]) {
        // Not yet provided by this backend; unreachable, as above.
    }

    fn set_ref_values(&mut self, _rv: RefValues) {
        // Not yet provided by this backend; unreachable, as above.
    }

    fn bind_pipeline(&mut self, _pso: &Pipeline) {
        // Not yet provided by this backend; unreachable, as above.
    }

    fn bind_descriptor_sets(&mut self) {
        // Not yet provided by this backend; unreachable, as above.
    }

    fn push_constants(&mut self) {
        // Not yet provided by this backend; unreachable, as above.
    }
}

/// The backend's current coverage, by name. No verified caller can record
/// an operation of the second group through any interface of this backend:
/// each interface method requires `supports` of its operation.
pub proof fn lemma_backend_coverage()
    ensures
        op_supported(Operation::CopyBuffer),
        op_supported(Operation::ClearColor),
        op_supported(Operation::Draw),
        op_supported(Operation::DrawIndexed),
        op_supported(Operation::Dispatch),
        op_supported(Operation::BindIndexBuffer),
        op_supported(Operation::SetViewports),
        !op_supported(Operation::PipelineBarrier),
        !op_supported(Operation::ExecuteCommands),
        !op_supported(Operation::UpdateBuffer),
        !op_supported(Operation::CopyImage),
        !op_supported(Operation::CopyBufferToImage),
        !op_supported(Operation::CopyImageToBuffer),
        !op_supported(Operation::ClearBuffer),
        !op_supported(Operation::BindPipeline),
        !op_supported(Operation::BindDescriptorSets),
        !op_supported(Operation::PushConstants),
        !op_supported(Operation::ClearAttachment),
        !op_supported(Operation::DrawIndirect),
        !op_supported(Operation::DrawIndexedIndirect),
        !op_supported(Operation::DispatchIndirect),
        !op_supported(Operation::BindVertexBuffers),
        !op_supported(Operation::SetScissors),
        !op_supported(Operation::SetRefValues),
        !op_supported(Operation::ClearDepthStencil),
        !op_supported(Operation::ResolveImage),
{
}

/// A command buffer for a general queue.
pub type GeneralCommandBuffer = TypedCommandBuffer<General>;

/// A command buffer for a graphics queue.
pub type GraphicsCommandBuffer = TypedCommandBuffer<Graphics>;

/// A command buffer for a compute queue.
pub type ComputeCommandBuffer = TypedCommandBuffer<Compute>;

/// A command buffer for a transfer queue.
pub type TransferCommandBuffer = TypedCommandBuffer<Transfer>;

/// A command buffer recorded inside a render-pass subpass.
pub type SubpassCommandBuffer = TypedCommandBuffer<Subpass>;

} // verus!
