//! Conformance of the concrete buffer kinds to the capability table, and
//! recording through the capability interfaces and the encoder.

use corell::command::{
    ClearColor, CommandBuffer, ComputeCommandBuffer, Encoder, GraphicsCommandBuffer,
    PrimaryCommandBuffer, ProcessingCommandBuffer, SecondaryCommandBuffer, SubpassCommandBuffer,
    TransferCommandBuffer,
};
use corell::dx12::kinds::TypedCommandBuffer;
use corell::dx12::kinds::{Compute, General, Graphics, Subpass, Transfer};
use corell::dx12::list::{DxgiFormat, NativeCommand};
use corell::dx12::native::{Buffer, RenderTargetView, ResourceHandle, Resources};
use corell::target::Rect;
use corell::IndexType;

fn raw() -> corell::dx12::command::CommandBuffer {
    corell::dx12::command::CommandBuffer::new()
}

fn buffer(id: u64, gpu_address: u64, size: u32) -> Buffer {
    Buffer { resource: ResourceHandle { id, gpu_address }, size }
}

fn is_root<C: CommandBuffer>(_: &C) {}

fn is_primary<C: PrimaryCommandBuffer<Resources>>(_: &C) {}

fn is_secondary<C: SecondaryCommandBuffer<Resources>>(_: &C) {}

fn is_transfer<C: TransferCommandBuffer<Resources>>(_: &C) {}

fn is_processing<C: ProcessingCommandBuffer<Resources>>(_: &C) {}

fn is_compute<C: ComputeCommandBuffer<Resources>>(_: &C) {}

fn is_graphics<C: GraphicsCommandBuffer<Resources>>(_: &C) {}

fn is_subpass<C: SubpassCommandBuffer<Resources>>(_: &C) {}

#[test]
fn general_kind_implements_its_table_row() {
    let cb = TypedCommandBuffer::<General>::new(raw());
    is_root(&cb);
    is_primary(&cb);
    is_transfer(&cb);
    is_processing(&cb);
    is_compute(&cb);
    is_graphics(&cb);
}

#[test]
fn graphics_kind_implements_its_table_row() {
    let cb = TypedCommandBuffer::<Graphics>::new(raw());
    is_root(&cb);
    is_primary(&cb);
    is_transfer(&cb);
    is_processing(&cb);
    is_graphics(&cb);
}

#[test]
fn compute_kind_implements_its_table_row() {
    let cb = TypedCommandBuffer::<Compute>::new(raw());
    is_root(&cb);
    is_primary(&cb);
    is_transfer(&cb);
    is_processing(&cb);
    is_compute(&cb);
}

#[test]
fn transfer_kind_implements_its_table_row() {
    let cb = TypedCommandBuffer::<Transfer>::new(raw());
    is_root(&cb);
    is_primary(&cb);
    is_transfer(&cb);
}

#[test]
fn subpass_kind_implements_its_table_row() {
    let cb = TypedCommandBuffer::<Subpass>::new(raw());
    is_root(&cb);
    is_secondary(&cb);
    is_subpass(&cb);
}

#[test]
fn recording_through_the_interfaces_reaches_the_recorder() {
    let mut general = TypedCommandBuffer::<General>::new(raw());
    let src = buffer(1, 0x10, 32);
    let dst = buffer(2, 0x20, 32);
    let rtv = RenderTargetView { handle: 5 };
    TransferCommandBuffer::copy_buffer(&mut general, &src, &dst, None);
    ProcessingCommandBuffer::clear_color(&mut general, &rtv, ClearColor::Float([0, 0, 0, 0]));
    ComputeCommandBuffer::dispatch(&mut general, 1, 2, 3);
    GraphicsCommandBuffer::bind_index_buffer(&mut general, &src, IndexType::U32);
    GraphicsCommandBuffer::set_viewports(&mut general, &[Rect { x: 0, y: 0, w: 16, h: 16 }]);
    let commands = general.raw.inner.commands();
    assert_eq!(commands.len(), 5);
    assert_eq!(commands[0], NativeCommand::CopyResource { dst: 2, src: 1 });
    assert_eq!(commands[2], NativeCommand::Dispatch { x: 1, y: 2, z: 3 });
}

#[test]
fn subpass_kind_records_the_draw_family() {
    let mut subpass = TypedCommandBuffer::<Subpass>::new(raw());
    let ib = buffer(3, 0x30, 96);
    SubpassCommandBuffer::bind_index_buffer(&mut subpass, &ib, IndexType::U16);
    SubpassCommandBuffer::draw(&mut subpass, 0, 3, None);
    SubpassCommandBuffer::draw_indexed(&mut subpass, 0, 6, 100, Some((4, 1)));
    let commands = subpass.raw.inner.commands();
    assert_eq!(commands.len(), 3);
    match &commands[0] {
        NativeCommand::SetIndexBuffer { view } => assert_eq!(view.format, DxgiFormat::R16Uint),
        other => panic!("unexpected command {:?}", other),
    }
    assert_eq!(
        commands[2],
        NativeCommand::DrawIndexedInstanced {
            index_count_per_instance: 6,
            instance_count: 4,
            start_index_location: 0,
            base_vertex_location: 100,
            start_instance_location: 1,
        }
    );
}

#[test]
fn ending_through_the_root_interface_closes_the_recording() {
    let mut cb = TypedCommandBuffer::<Transfer>::new(raw());
    let src = buffer(1, 0, 8);
    let dst = buffer(2, 0, 8);
    TransferCommandBuffer::copy_buffer(&mut cb, &src, &dst, None);
    let info = CommandBuffer::end(&mut cb);
    assert!(!info.0.recording());
    assert_eq!(info.0.commands().len(), 1);
    assert!(!cb.raw.inner.recording());
}

#[test]
fn encoder_forwards_recording_to_the_wrapped_buffer() {
    let cb = TypedCommandBuffer::<General>::new(raw());
    let mut enc = Encoder::new(cb);
    let src = buffer(1, 0x10, 32);
    let dst = buffer(2, 0x20, 32);
    enc.copy_buffer::<Resources>(&src, &dst, None);
    enc.dispatch::<Resources>(7, 8, 9);
    enc.bind_index_buffer::<Resources>(&src, IndexType::U16);
    enc.set_viewports::<Resources>(&[Rect { x: 1, y: 2, w: 3, h: 4 }]);
    enc.clear_color::<Resources>(
        &RenderTargetView { handle: 9 },
        ClearColor::Uint([1, 2, 3, 4]),
    );
    let submit = enc.finish();
    let info = submit.get_info();
    assert!(!info.0.recording());
    let commands = info.0.commands();
    assert_eq!(commands.len(), 5);
    assert_eq!(commands[0], NativeCommand::CopyResource { dst: 2, src: 1 });
    assert_eq!(commands[1], NativeCommand::Dispatch { x: 7, y: 8, z: 9 });
}

#[test]
fn encoder_forwards_the_draw_family_on_subpass_buffers() {
    let cb = TypedCommandBuffer::<Subpass>::new(raw());
    let mut enc = Encoder::new(cb);
    enc.draw::<Resources>(0, 3, None);
    enc.draw_indexed::<Resources>(2, 4, 6, None);
    let submit = enc.finish();
    let info = submit.get_info();
    let commands = info.0.commands();
    assert_eq!(commands.len(), 2);
    assert_eq!(
        commands[0],
        NativeCommand::DrawInstanced {
            vertex_count_per_instance: 3,
            instance_count: 1,
            start_vertex_location: 0,
            start_instance_location: 0,
        }
    );
}
