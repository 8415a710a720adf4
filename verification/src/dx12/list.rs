//! A model of the native graphics command list.
//!
//! The real command list lives behind the driver boundary and is reachable
//! only through foreign calls, so this module captures it as plain data:
//! the sequence of native calls recorded into it, plus its recording state.
//! Each method mirrors one native call and states exactly which entry it
//! appends. A submission layer replays [`GraphicsCommandList::commands`]
//! against the real driver object.
//!
//! Floating-point parameters of native calls (clear colors, viewports) are
//! carried as IEEE-754 bit patterns.

use vstd::prelude::*;

verus! {

/// One viewport of the native rasterizer stage. All six fields are
/// IEEE-754 bit patterns of 32-bit floats.
#[derive(Copy, Clone, Debug, PartialEq)]
pub struct Viewport {
    /// X coordinate of the top-left corner.
    pub top_left_x: u32,
    /// Y coordinate of the top-left corner.
    pub top_left_y: u32,
    /// Width of the viewport.
    pub width: u32,
    /// Height of the viewport.
    pub height: u32,
    /// Lower bound of the depth range.
    pub min_depth: u32,
    /// Upper bound of the depth range.
    pub max_depth: u32,
}

/// The fixed-width formats an index buffer view can select.
#[derive(Copy, Clone, Debug, PartialEq, Eq, Structural)]
pub enum DxgiFormat {
    /// 16-bit unsigned integer entries.
    R16Uint,
    /// 32-bit unsigned integer entries.
    R32Uint,
}

/// A view describing an index buffer binding.
#[derive(Copy, Clone, Debug, PartialEq)]
pub struct IndexBufferView {
    /// GPU-visible address of the first entry.
    pub buffer_location: u64,
    /// Size of the view, in bytes.
    pub size_in_bytes: u32,
    /// Width of each entry.
    pub format: DxgiFormat,
}

/// One native call recorded into a command list, captured as plain data.
/// Resources and views appear by their native identities.
#[derive(Debug, PartialEq)]
pub enum NativeCommand {
    /// A region copy between two buffer resources.
    CopyBufferRegion {
        /// Destination resource.
        dst: u64,
        /// Offset into the destination, in bytes.
        dst_offset: u64,
        /// Source resource.
        src: u64,
        /// Offset into the source, in bytes.
        src_offset: u64,
        /// Number of bytes to copy.
        num_bytes: u64,
    },
    /// A whole-resource copy; the driver derives the size from the
    /// resources themselves.
    CopyResource {
        /// Destination resource.
        dst: u64,
        /// Source resource.
        src: u64,
    },
    /// A clear of a render-target view to a floating-point color, given as
    /// four bit patterns.
    ClearRenderTargetView {
        /// The render-target view's descriptor handle.
        rtv: u64,
        /// The four color components, as bit patterns.
        color: [u32; 4],
    },
    /// An instanced draw.
    DrawInstanced {
        /// Vertices per instance.
        vertex_count_per_instance: u32,
        /// Number of instances.
        instance_count: u32,
        /// First vertex.
        start_vertex_location: u32,
        /// First instance.
        start_instance_location: u32,
    },
    /// An instanced indexed draw.
    DrawIndexedInstanced {
        /// Indices per instance.
        index_count_per_instance: u32,
        /// Number of instances.
        instance_count: u32,
        /// First index.
        start_index_location: u32,
        /// Signed offset added to each index.
        base_vertex_location: i32,
        /// First instance.
        start_instance_location: u32,
    },
    /// A compute dispatch.
    Dispatch {
        /// Thread groups along x.
        x: u32,
        /// Thread groups along y.
        y: u32,
        /// Thread groups along z.
        z: u32,
    },
    /// Binding an index buffer view.
    SetIndexBuffer {
        /// The bound view.
        view: IndexBufferView,
    },
    /// Binding the full list of rasterizer viewports.
    SetViewports {
        /// The bound viewports, in order.
        viewports: Vec<Viewport>,
    },
}

/// The mathematical value of one recorded native call: identical to
/// [`NativeCommand`], with the viewport list as a sequence.
pub enum CommandModel {
    /// A region copy between two buffer resources.
    CopyBufferRegion { dst: u64, dst_offset: u64, src: u64, src_offset: u64, num_bytes: u64 },
    /// A whole-resource copy.
    CopyResource { dst: u64, src: u64 },
    /// A render-target clear.
    ClearRenderTargetView { rtv: u64, color: Seq<u32> },
    /// An instanced draw.
    DrawInstanced {
        vertex_count_per_instance: u32,
        instance_count: u32,
        start_vertex_location: u32,
        start_instance_location: u32,
    },
    /// An instanced indexed draw.
    DrawIndexedInstanced {
        index_count_per_instance: u32,
        instance_count: u32,
        start_index_location: u32,
        base_vertex_location: i32,
        start_instance_location: u32,
    },
    /// A compute dispatch.
    Dispatch { x: u32, y: u32, z: u32 },
    /// Binding an index buffer view.
    SetIndexBuffer { view: IndexBufferView },
    /// Binding the full list of rasterizer viewports.
    SetViewports { viewports: Seq<Viewport> },
}

impl View for NativeCommand {
    type V = CommandModel;

    open spec fn view(&self) -> CommandModel {
        match self {
            NativeCommand::CopyBufferRegion { dst, dst_offset, src, src_offset, num_bytes } => {
                CommandModel::CopyBufferRegion {
                    dst: *dst,
                    dst_offset: *dst_offset,
                    src: *src,
                    src_offset: *src_offset,
                    num_bytes: *num_bytes,
                }
            },
            NativeCommand::CopyResource { dst, src } => {
                CommandModel::CopyResource { dst: *dst, src: *src }
            },
            NativeCommand::ClearRenderTargetView { rtv, color } => {
                CommandModel::ClearRenderTargetView { rtv: *rtv, color: color@ }
            },
            NativeCommand::DrawInstanced {
                vertex_count_per_instance,
                instance_count,
                start_vertex_location,
                start_instance_location,
            } => {
                CommandModel::DrawInstanced {
                    vertex_count_per_instance: *vertex_count_per_instance,
                    instance_count: *instance_count,
                    start_vertex_location: *start_vertex_location,
                    start_instance_location: *start_instance_location,
                }
            },
            NativeCommand::DrawIndexedInstanced {
                index_count_per_instance,
                instance_count,
                start_index_location,
                base_vertex_location,
                start_instance_location,
            } => {
                CommandModel::DrawIndexedInstanced {
                    index_count_per_instance: *index_count_per_instance,
                    instance_count: *instance_count,
                    start_index_location: *start_index_location,
                    base_vertex_location: *base_vertex_location,
                    start_instance_location: *start_instance_location,
                }
            },
            NativeCommand::Dispatch { x, y, z } => {
                CommandModel::Dispatch { x: *x, y: *y, z: *z }
            },
            NativeCommand::SetIndexBuffer { view } => {
                CommandModel::SetIndexBuffer { view: *view }
            },
            NativeCommand::SetViewports { viewports } => {
                CommandModel::SetViewports { viewports: viewports@ }
            },
        }
    }
}

/// The mathematical value of a recorded call sequence.
pub open spec fn views_of(commands: Seq<NativeCommand>) -> Seq<CommandModel> {
    commands.map_values(|c: NativeCommand| c@)
}

/// A native graphics command list: the calls recorded into it, in order,
/// and whether it is still open for recording. Native calls on a closed
/// list are invalid, so every recording method requires an open list.
pub struct GraphicsCommandList {
    commands: Vec<NativeCommand>,
    recording: bool,
}

impl GraphicsCommandList {
    /// The sequence of native calls recorded so far.
    pub closed spec fn model(&self) -> Seq<CommandModel> {
        views_of(self.commands@)
    }

    /// True while the list is open for recording.
    pub closed spec fn is_recording(&self) -> bool {
        self.recording
    }

    /// A fresh list, open for recording.
    pub fn new() -> (list: Self)
        ensures
            list.model() == Seq::<CommandModel>::empty(),
            list.is_recording(),
    {
        let list = GraphicsCommandList { commands: Vec::new(), recording: true };
        proof {
            assert(list.model() =~= Seq::<CommandModel>::empty());
        }
        list
    }

    /// Read access to the recorded calls, e.g. for a submission layer that
    /// replays them against the driver.
    pub fn commands(&self) -> (commands: &Vec<NativeCommand>)
        ensures
            views_of(commands@) == self.model(),
    {
        &self.commands
    }

    /// True while the list is open for recording, as an executable value.
    pub fn recording(&self) -> (recording: bool)
        ensures
            recording == self.is_recording(),
    {
        self.recording
    }

    /// Close the list: no further calls can be recorded. Mirrors the native
    /// finalization call that must precede submission.
    pub fn close(&mut self)
        requires
            old(self).is_recording(),
        ensures
            !final(self).is_recording(),
            final(self).model() == old(self).model(),
    {
        self.recording = false;
    }

    /// Record one native call.
    fn push(&mut self, command: NativeCommand)
        requires
            old(self).is_recording(),
        ensures
            final(self).is_recording(),
            final(self).model() == old(self).model().push(command@),
    {
        let ghost prev = self.commands@;
        self.commands.push(command);
        proof {
            assert(views_of(self.commands@) =~= views_of(prev).push(self.commands@.last()@));
        }
    }

    /// Record a region copy between two buffer resources.
    pub fn copy_buffer_region(&mut self, dst: u64, dst_offset: u64, src: u64, src_offset: u64, num_bytes: u64)
        requires
            old(self).is_recording(),
        ensures
            final(self).is_recording(),
            final(self).model() == old(self).model().push(
                CommandModel::CopyBufferRegion { dst, dst_offset, src, src_offset, num_bytes },
            ),
    {
        self.push(NativeCommand::CopyBufferRegion { dst, dst_offset, src, src_offset, num_bytes });
    }

    /// Record a whole-resource copy.
    pub fn copy_resource(&mut self, dst: u64, src: u64)
        requires
            old(self).is_recording(),
        ensures
            final(self).is_recording(),
            final(self).model() == old(self).model().push(CommandModel::CopyResource { dst, src }),
    {
        self.push(NativeCommand::CopyResource { dst, src });
    }

    /// Record a clear of a render-target view.
    pub fn clear_render_target_view(&mut self, rtv: u64, color: [u32; 4])
        requires
            old(self).is_recording(),
        ensures
            final(self).is_recording(),
            final(self).model() == old(self).model().push(
                CommandModel::ClearRenderTargetView { rtv, color: color@ },
            ),
    {
        self.push(NativeCommand::ClearRenderTargetView { rtv, color });
    }

    /// Record an instanced draw.
    pub fn draw_instanced(
        &mut self,
        vertex_count_per_instance: u32,
        instance_count: u32,
        start_vertex_location: u32,
        start_instance_location: u32,
    )
        requires
            old(self).is_recording(),
        ensures
            final(self).is_recording(),
            final(self).model() == old(self).model().push(
                CommandModel::DrawInstanced {
                    vertex_count_per_instance,
                    instance_count,
                    start_vertex_location,
                    start_instance_location,
                },
            ),
    {
        self.push(NativeCommand::DrawInstanced {
            vertex_count_per_instance,
            instance_count,
            start_vertex_location,
            start_instance_location,
        });
    }

    /// Record an instanced indexed draw.
    pub fn draw_indexed_instanced(
        &mut self,
        index_count_per_instance: u32,
        instance_count: u32,
        start_index_location: u32,
        base_vertex_location: i32,
        start_instance_location: u32,
    )
        requires
            old(self).is_recording(),
        ensures
            final(self).is_recording(),
            final(self).model() == old(self).model().push(
                CommandModel::DrawIndexedInstanced {
                    index_count_per_instance,
                    instance_count,
                    start_index_location,
                    base_vertex_location,
                    start_instance_location,
                },
            ),
    {
        self.push(NativeCommand::DrawIndexedInstanced {
            index_count_per_instance,
            instance_count,
            start_index_location,
            base_vertex_location,
            start_instance_location,
        });
    }

    /// Record a compute dispatch.
    pub fn dispatch(&mut self, x: u32, y: u32, z: u32)
        requires
            old(self).is_recording(),
        ensures
            final(self).is_recording(),
            final(self).model() == old(self).model().push(CommandModel::Dispatch { x, y, z }),
    {
        self.push(NativeCommand::Dispatch { x, y, z });
    }

    /// Record binding an index buffer view.
    pub fn ia_set_index_buffer(&mut self, view: IndexBufferView)
        requires
            old(self).is_recording(),
        ensures
            final(self).is_recording(),
            final(self).model() == old(self).model().push(CommandModel::SetIndexBuffer { view }),
    {
        self.push(NativeCommand::SetIndexBuffer { view });
    }

    /// Record binding the full list of rasterizer viewports.
    pub fn rs_set_viewports(&mut self, viewports: Vec<Viewport>)
        requires
            old(self).is_recording(),
        ensures
            final(self).is_recording(),
            final(self).model() == old(self).model().push(
                CommandModel::SetViewports { viewports: viewports@ },
            ),
    {
        self.push(NativeCommand::SetViewports { viewports });
    }

    /// A second handle to the same recorded state, as cloning a reference
    /// to the native list yields.
    pub fn duplicate(&self) -> (copy: Self)
        ensures
            copy.model() == self.model(),
            copy.is_recording() == self.is_recording(),
    {
        let mut commands: Vec<NativeCommand> = Vec::new();
        let mut i: usize = 0;
        while i < self.commands.len()
            invariant
                i <= self.commands@.len(),
                commands@.len() == i as nat,
                forall|j: int| 0 <= j < i as int ==> commands@[j]@ == self.commands@[j]@,
            decreases self.commands@.len() - i,
        {
            commands.push(duplicate_command(&self.commands[i]));
            i = i + 1;
        }
        let copy = GraphicsCommandList { commands, recording: self.recording };
        proof {
            assert(copy.model() =~= self.model());
        }
        copy
    }
}

/// A copy of one recorded call, equal to the original in value.
fn duplicate_command(command: &NativeCommand) -> (copy: NativeCommand)
    ensures
        copy@ == command@,
{
    match command {
        NativeCommand::CopyBufferRegion { dst, dst_offset, src, src_offset, num_bytes } => {
            NativeCommand::CopyBufferRegion {
                dst: *dst,
                dst_offset: *dst_offset,
                src: *src,
                src_offset: *src_offset,
                num_bytes: *num_bytes,
            }
        },
        NativeCommand::CopyResource { dst, src } => {
            NativeCommand::CopyResource { dst: *dst, src: *src }
        },
        NativeCommand::ClearRenderTargetView { rtv, color } => {
            NativeCommand::ClearRenderTargetView { rtv: *rtv, color: *color }
        },
        NativeCommand::DrawInstanced {
            vertex_count_per_instance,
            instance_count,
            start_vertex_location,
            start_instance_location,
        } => {
            NativeCommand::DrawInstanced {
                vertex_count_per_instance: *vertex_count_per_instance,
                instance_count: *instance_count,
                start_vertex_location: *start_vertex_location,
                start_instance_location: *start_instance_location,
            }
        },
        NativeCommand::DrawIndexedInstanced {
            index_count_per_instance,
            instance_count,
            start_index_location,
            base_vertex_location,
            start_instance_location,
        } => {
            NativeCommand::DrawIndexedInstanced {
                index_count_per_instance: *index_count_per_instance,
                instance_count: *instance_count,
                start_index_location: *start_index_location,
                base_vertex_location: *base_vertex_location,
                start_instance_location: *start_instance_location,
            }
        },
        NativeCommand::Dispatch { x, y, z } => {
            NativeCommand::Dispatch { x: *x, y: *y, z: *z }
        },
        NativeCommand::SetIndexBuffer { view } => {
            NativeCommand::SetIndexBuffer { view: *view }
        },
        NativeCommand::SetViewports { viewports } => {
            NativeCommand::SetViewports { viewports: duplicate_viewports(viewports) }
        },
    }
}

/// A copy of a viewport list, equal to the original element for element.
fn duplicate_viewports(viewports: &Vec<Viewport>) -> (copy: Vec<Viewport>)
    ensures
        copy@ == viewports@,
{
    let mut copy: Vec<Viewport> = Vec::new();
    let mut i: usize = 0;
    while i < viewports.len()
        invariant
            i <= viewports@.len(),
            copy@ == viewports@.subrange(0, i as int),
        decreases viewports@.len() - i,
    {
        copy.push(viewports[i]);
        proof {
            assert(copy@ =~= viewports@.subrange(0, i as int + 1));
        }
        i = i + 1;
    }
    proof {
        assert(viewports@.subrange(0, viewports@.len() as int) =~= viewports@);
    }
    copy
}

} // verus!
