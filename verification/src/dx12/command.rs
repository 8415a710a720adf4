//! The backend command recorder.
//!
//! Each method translates one abstract operation into the native calls it
//! records, maintaining a one-to-one mapping between the operation and the
//! entries appended to the command list. The spec functions beside the
//! methods state that translation, and every contract is phrased over
//! them, so a recording's exact native content is known to every verified
//! caller.

use vstd::prelude::*;
use crate::{IndexType, InstanceCount, VertexCount};
use crate::command::{BufferCopy, ClearColor, InstanceParams};
use crate::float_bits::{f32_bits_of_int, f32_bits_of_nat, f32_bits_from_i32, f32_bits_from_u32, F32_ONE_BITS, F32_ZERO_BITS};
use crate::target::Rect;
use super::list::{CommandModel, DxgiFormat, GraphicsCommandList, IndexBufferView, Viewport};
use super::native::{Buffer, RenderTargetView};

verus! {

/// Captures what the backend needs to later execute the recorded commands:
/// a handle retaining the finalized native list.
pub struct SubmitInfo(pub GraphicsCommandList);

/// The backend command recorder, wrapping the native list it records into.
pub struct CommandBuffer {
    /// The native command list the recorder drives.
    pub inner: GraphicsCommandList,
}

/// The native region copy recorded for one [`BufferCopy`].
pub open spec fn copy_region_call(src: Buffer, dest: Buffer, region: BufferCopy) -> CommandModel {
    CommandModel::CopyBufferRegion {
        dst: dest.resource.id,
        dst_offset: region.dst as u64,
        src: src.resource.id,
        src_offset: region.src as u64,
        num_bytes: region.size as u64,
    }
}

/// `regions` as a mathematical value.
pub open spec fn regions_model(regions: Option<&[BufferCopy]>) -> Option<Seq<BufferCopy>> {
    match regions {
        Option::None => Option::None,
        Option::Some(rs) => Option::Some(rs@),
    }
}

/// The native calls one `copy_buffer` records: a whole-resource copy when
/// no regions are given, else one region copy per entry, in order.
pub open spec fn copy_buffer_calls(src: Buffer, dest: Buffer, regions: Option<Seq<BufferCopy>>) -> Seq<CommandModel> {
    match regions {
        Option::None => seq![CommandModel::CopyResource { dst: dest.resource.id, src: src.resource.id }],
        Option::Some(rs) => rs.map_values(|region: BufferCopy| copy_region_call(src, dest, region)),
    }
}

/// The four native floating-point components (as bit patterns) of a clear
/// color: a floating-point color passes through unchanged; integer
/// components are converted to floating point component-wise — a lossy
/// numeric policy kept as the backend's current, documented behavior, not
/// a format-aware reinterpretation.
pub open spec fn native_clear_color(value: ClearColor) -> Seq<u32> {
    match value {
        ClearColor::Float(c) => c@,
        ClearColor::Int(c) => seq![
            f32_bits_of_int(c[0] as int) as u32,
            f32_bits_of_int(c[1] as int) as u32,
            f32_bits_of_int(c[2] as int) as u32,
            f32_bits_of_int(c[3] as int) as u32,
        ],
        ClearColor::Uint(c) => seq![
            f32_bits_of_nat(c[0] as nat) as u32,
            f32_bits_of_nat(c[1] as nat) as u32,
            f32_bits_of_nat(c[2] as nat) as u32,
            f32_bits_of_nat(c[3] as nat) as u32,
        ],
    }
}

/// The native call one `clear_color` records.
pub open spec fn clear_color_call(rtv: RenderTargetView, value: ClearColor) -> CommandModel {
    CommandModel::ClearRenderTargetView { rtv: rtv.handle, color: native_clear_color(value) }
}

/// The instance count that optional instance parameters denote: absent
/// parameters mean exactly one instance.
pub open spec fn instance_count_of(instances: Option<InstanceParams>) -> InstanceCount {
    match instances {
        Option::Some(params) => params.0,
        Option::None => 1u32,
    }
}

/// The start instance that optional instance parameters denote: absent
/// parameters mean instance index 0.
pub open spec fn start_instance_of(instances: Option<InstanceParams>) -> VertexCount {
    match instances {
        Option::Some(params) => params.1,
        Option::None => 0u32,
    }
}

/// The native call one `draw` records.
pub open spec fn draw_call(start: VertexCount, count: VertexCount, instances: Option<InstanceParams>) -> CommandModel {
    CommandModel::DrawInstanced {
        vertex_count_per_instance: count,
        instance_count: instance_count_of(instances),
        start_vertex_location: start,
        start_instance_location: start_instance_of(instances),
    }
}

/// The native call one `draw_indexed` records. The base vertex is passed
/// through as a signed value, usable as a negative offset.
pub open spec fn draw_indexed_call(
    start: VertexCount,
    count: VertexCount,
    base: VertexCount,
    instances: Option<InstanceParams>,
) -> CommandModel {
    CommandModel::DrawIndexedInstanced {
        index_count_per_instance: count,
        instance_count: instance_count_of(instances),
        start_index_location: start,
        base_vertex_location: base as i32,
        start_instance_location: start_instance_of(instances),
    }
}

/// The native call one `dispatch` records.
pub open spec fn dispatch_call(x: u32, y: u32, z: u32) -> CommandModel {
    CommandModel::Dispatch { x, y, z }
}

/// The native index-buffer format selected for each index type.
pub open spec fn format_of(index_type: IndexType) -> DxgiFormat {
    match index_type {
        IndexType::U16 => DxgiFormat::R16Uint,
        IndexType::U32 => DxgiFormat::R32Uint,
    }
}

/// The view one `bind_index_buffer` binds: the buffer's GPU-visible
/// address, its declared byte size, and the format for the index type.
pub open spec fn index_buffer_view_of(buffer: Buffer, index_type: IndexType) -> IndexBufferView {
    IndexBufferView {
        buffer_location: buffer.resource.gpu_address,
        size_in_bytes: buffer.size,
        format: format_of(index_type),
    }
}

/// The native call one `bind_index_buffer` records.
pub open spec fn bind_index_buffer_call(buffer: Buffer, index_type: IndexType) -> CommandModel {
    CommandModel::SetIndexBuffer { view: index_buffer_view_of(buffer, index_type) }
}

/// The native viewport for one abstract rectangle: its coordinates as
/// floating-point bit patterns, with the fixed depth range [0.0, 1.0] —
/// per-call depth bounds are not currently configurable.
pub open spec fn viewport_of(rect: Rect) -> Viewport {
    Viewport {
        top_left_x: f32_bits_of_nat(rect.x as nat) as u32,
        top_left_y: f32_bits_of_nat(rect.y as nat) as u32,
        width: f32_bits_of_nat(rect.w as nat) as u32,
        height: f32_bits_of_nat(rect.h as nat) as u32,
        min_depth: F32_ZERO_BITS,
        max_depth: F32_ONE_BITS,
    }
}

/// The native call one `set_viewports` records: one native viewport per
/// rectangle, bound as the full list.
pub open spec fn set_viewports_call(rects: Seq<Rect>) -> CommandModel {
    CommandModel::SetViewports { viewports: rects.map_values(|rect: Rect| viewport_of(rect)) }
}

impl CommandBuffer {
    /// The native calls recorded so far.
    pub open spec fn model(&self) -> Seq<CommandModel> {
        self.inner.model()
    }

    /// True while the recording session is open.
    pub open spec fn is_recording(&self) -> bool {
        self.inner.is_recording()
    }

    /// A recorder over a fresh native list, open for recording — the state
    /// a pool hands buffers out in.
    pub fn new() -> (buffer: Self)
        ensures
            buffer.model() == Seq::<CommandModel>::empty(),
            buffer.is_recording(),
    {
        CommandBuffer { inner: GraphicsCommandList::new() }
    }

    /// Finalize the native recording, then produce submit information that
    /// retains the finalized list: the handle is created only after the
    /// list is closed.
    pub fn end(&mut self) -> (info: SubmitInfo)
        requires
            old(self).is_recording(),
        ensures
            !final(self).is_recording(),
            final(self).model() == old(self).model(),
            info.0.model() == old(self).model(),
            !info.0.is_recording(),
    {
        self.inner.close();
        SubmitInfo(self.inner.duplicate())
    }

    /// Record a buffer-to-buffer copy: the whole resource when `regions`
    /// is absent (the driver derives the size, the caller need not know
    /// it), else each region independently, in order.
    pub fn copy_buffer(&mut self, src: &Buffer, dest: &Buffer, regions: Option<&[BufferCopy]>)
        requires
            old(self).is_recording(),
        ensures
            final(self).is_recording(),
            final(self).model() == old(self).model() + copy_buffer_calls(*src, *dest, regions_model(regions)),
    {
        match regions {
            Option::Some(regions) => {
                let ghost calls = copy_buffer_calls(*src, *dest, Option::Some(regions@));
                let mut i: usize = 0;
                while i < regions.len()
                    invariant
                        i <= regions@.len(),
                        self.is_recording(),
                        calls == copy_buffer_calls(*src, *dest, Option::Some(regions@)),
                        self.model() == old(self).model() + calls.subrange(0, i as int),
                    decreases regions@.len() - i,
                {
                    let region = regions[i];
                    self.inner.copy_buffer_region(
                        dest.resource.id,
                        region.dst as u64,
                        src.resource.id,
                        region.src as u64,
                        region.size as u64,
                    );
                    proof {
                        assert(calls[i as int] == copy_region_call(*src, *dest, regions@[i as int]));
                        assert(self.model() =~= old(self).model() + calls.subrange(0, i as int + 1));
                    }
                    i = i + 1;
                }
                proof {
                    assert(calls.subrange(0, calls.len() as int) =~= calls);
                }
            },
            Option::None => {
                self.inner.copy_resource(dest.resource.id, src.resource.id);
                proof {
                    assert(self.model() =~= old(self).model() + copy_buffer_calls(
                        *src,
                        *dest,
                        Option::None,
                    ));
                }
            },
        }
    }

    /// Record a clear of a render-target view. The match on the color
    /// variant happens here: floating-point bit patterns pass through,
    /// integer components are converted to floating point.
    pub fn clear_color(&mut self, rtv: &RenderTargetView, value: ClearColor)
        requires
            old(self).is_recording(),
        ensures
            final(self).is_recording(),
            final(self).model() == old(self).model().push(clear_color_call(*rtv, value)),
    {
        let clear_color: [u32; 4] = match value {
            ClearColor::Float(c) => c,
            ClearColor::Int(c) => [
                f32_bits_from_i32(c[0]),
                f32_bits_from_i32(c[1]),
                f32_bits_from_i32(c[2]),
                f32_bits_from_i32(c[3]),
            ],
            ClearColor::Uint(c) => [
                f32_bits_from_u32(c[0]),
                f32_bits_from_u32(c[1]),
                f32_bits_from_u32(c[2]),
                f32_bits_from_u32(c[3]),
            ],
        };
        proof {
            assert(clear_color@ =~= native_clear_color(value));
        }
        self.inner.clear_render_target_view(rtv.handle, clear_color);
    }

    /// Record a draw of `count` vertices starting at `start`: absent
    /// instance parameters are substituted by one instance starting at
    /// index 0; given parameters pass through unchanged.
    pub fn draw(&mut self, start: VertexCount, count: VertexCount, instances: Option<InstanceParams>)
        requires
            old(self).is_recording(),
        ensures
            final(self).is_recording(),
            final(self).model() == old(self).model().push(draw_call(start, count, instances)),
    {
        let (num_instances, start_instance): (InstanceCount, VertexCount) = match instances {
            Option::Some((num_instances, start_instance)) => (num_instances, start_instance),
            Option::None => (1, 0),
        };
        self.inner.draw_instanced(count, num_instances, start, start_instance);
    }

    /// Record an indexed draw, with the same instance-parameter
    /// substitution as `draw` and the base vertex passed through as a
    /// signed offset.
    pub fn draw_indexed(
        &mut self,
        start: VertexCount,
        count: VertexCount,
        base: VertexCount,
        instances: Option<InstanceParams>,
    )
        requires
            old(self).is_recording(),
        ensures
            final(self).is_recording(),
            final(self).model() == old(self).model().push(
                draw_indexed_call(start, count, base, instances),
            ),
    {
        let (num_instances, start_instance): (InstanceCount, VertexCount) = match instances {
            Option::Some((num_instances, start_instance)) => (num_instances, start_instance),
            Option::None => (1, 0),
        };
        #[verifier::truncate]
        let base_vertex: i32 = base as i32;
        self.inner.draw_indexed_instanced(count, num_instances, start, base_vertex, start_instance);
    }

    /// Record a compute dispatch of `x * y * z` thread groups.
    pub fn dispatch(&mut self, x: u32, y: u32, z: u32)
        requires
            old(self).is_recording(),
        ensures
            final(self).is_recording(),
            final(self).model() == old(self).model().push(dispatch_call(x, y, z)),
    {
        self.inner.dispatch(x, y, z);
    }

    /// Record binding `ib` as the index buffer: compute the buffer's
    /// GPU-visible address, pick the fixed-width format for `index_type`,
    /// and bind a view of {address, declared byte size, format}.
    pub fn bind_index_buffer(&mut self, ib: &Buffer, index_type: IndexType)
        requires
            old(self).is_recording(),
        ensures
            final(self).is_recording(),
            final(self).model() == old(self).model().push(bind_index_buffer_call(*ib, index_type)),
    {
        let format = match index_type {
            IndexType::U16 => DxgiFormat::R16Uint,
            IndexType::U32 => DxgiFormat::R32Uint,
        };
        let location = ib.resource.gpu_virtual_address();
        let view = IndexBufferView {
            buffer_location: location,
            size_in_bytes: ib.size,
            format,
        };
        self.inner.ia_set_index_buffer(view);
    }

    /// Record setting the rasterizer viewports: each abstract rectangle
    /// maps to a native viewport with the fixed depth range [0.0, 1.0],
    /// and the whole list is bound at once.
    pub fn set_viewports(&mut self, viewports: &[Rect])
        requires
            old(self).is_recording(),
        ensures
            final(self).is_recording(),
            final(self).model() == old(self).model().push(set_viewports_call(viewports@)),
    {
        let mut native: Vec<Viewport> = Vec::new();
        let mut i: usize = 0;
        while i < viewports.len()
            invariant
                i <= viewports@.len(),
                native@.len() == i as nat,
                forall|j: int| 0 <= j < i as int ==> native@[j] == viewport_of(viewports@[j]),
            decreases viewports@.len() - i,
        {
            let rect = viewports[i];
            let vp = Viewport {
                top_left_x: f32_bits_from_u32(rect.x as u32),
                top_left_y: f32_bits_from_u32(rect.y as u32),
                width: f32_bits_from_u32(rect.w as u32),
                height: f32_bits_from_u32(rect.h as u32),
                min_depth: F32_ZERO_BITS,
                max_depth: F32_ONE_BITS,
            };
            native.push(vp);
            i = i + 1;
        }
        proof {
            assert(native@ =~= viewports@.map_values(|rect: Rect| viewport_of(rect)));
        }
        self.inner.rs_set_viewports(native);
    }
}

/// Omitted instance parameters behave exactly like explicit parameters of
/// one instance starting at index 0: the recorded native draw is
/// identical.
pub proof fn lemma_draw_default_instances(start: VertexCount, count: VertexCount)
    ensures
        draw_call(start, count, Option::None) == draw_call(
            start,
            count,
            Option::Some((1u32, 0u32)),
        ),
{
}

/// Omitted instance parameters behave exactly like explicit parameters of
/// one instance starting at index 0 for indexed draws as well.
pub proof fn lemma_draw_indexed_default_instances(start: VertexCount, count: VertexCount, base: VertexCount)
    ensures
        draw_indexed_call(start, count, base, Option::None) == draw_indexed_call(
            start,
            count,
            base,
            Option::Some((1u32, 0u32)),
        ),
{
}

} // verus!
