//! Scenario tests for the backend recorder: each abstract operation must
//! record exactly the native calls its contract states.

use corell::command::{BufferCopy, ClearColor};
use corell::dx12::command::CommandBuffer;
use corell::dx12::list::{DxgiFormat, NativeCommand};
use corell::dx12::native::{Buffer, RenderTargetView, ResourceHandle};
use corell::target::Rect;
use corell::IndexType;

fn buffer(id: u64, gpu_address: u64, size: u32) -> Buffer {
    Buffer { resource: ResourceHandle { id, gpu_address }, size }
}

#[test]
fn draw_without_instances_defaults_to_one_instance() {
    let mut with_none = CommandBuffer::new();
    with_none.draw(0, 3, None);
    let mut with_explicit = CommandBuffer::new();
    with_explicit.draw(0, 3, Some((1, 0)));
    assert_eq!(with_none.inner.commands(), with_explicit.inner.commands());
    assert_eq!(
        with_none.inner.commands()[0],
        NativeCommand::DrawInstanced {
            vertex_count_per_instance: 3,
            instance_count: 1,
            start_vertex_location: 0,
            start_instance_location: 0,
        }
    );
}

#[test]
fn draw_passes_explicit_instances_through() {
    let mut cb = CommandBuffer::new();
    cb.draw(5, 12, Some((8, 2)));
    assert_eq!(
        cb.inner.commands()[0],
        NativeCommand::DrawInstanced {
            vertex_count_per_instance: 12,
            instance_count: 8,
            start_vertex_location: 5,
            start_instance_location: 2,
        }
    );
}

#[test]
fn draw_indexed_without_instances_defaults_to_one_instance() {
    let mut with_none = CommandBuffer::new();
    with_none.draw_indexed(4, 6, 10, None);
    let mut with_explicit = CommandBuffer::new();
    with_explicit.draw_indexed(4, 6, 10, Some((1, 0)));
    assert_eq!(with_none.inner.commands(), with_explicit.inner.commands());
    assert_eq!(
        with_none.inner.commands()[0],
        NativeCommand::DrawIndexedInstanced {
            index_count_per_instance: 6,
            instance_count: 1,
            start_index_location: 4,
            base_vertex_location: 10,
            start_instance_location: 0,
        }
    );
}

#[test]
fn draw_indexed_base_vertex_is_reinterpreted_as_signed() {
    let mut cb = CommandBuffer::new();
    cb.draw_indexed(0, 3, u32::MAX, None);
    match &cb.inner.commands()[0] {
        NativeCommand::DrawIndexedInstanced { base_vertex_location, .. } => {
            assert_eq!(*base_vertex_location, -1);
        }
        other => panic!("unexpected command {:?}", other),
    }
}

#[test]
fn copy_buffer_without_regions_copies_the_whole_resource() {
    let mut cb = CommandBuffer::new();
    let src = buffer(1, 0x100, 64);
    let dst = buffer(2, 0x200, 64);
    cb.copy_buffer(&src, &dst, None);
    assert_eq!(cb.inner.commands().len(), 1);
    assert_eq!(cb.inner.commands()[0], NativeCommand::CopyResource { dst: 2, src: 1 });
}

#[test]
fn copy_buffer_with_one_region_copies_exactly_that_region() {
    let mut cb = CommandBuffer::new();
    // Total resource sizes are deliberately unrelated to the region.
    let src = buffer(1, 0x100, 4096);
    let dst = buffer(2, 0x200, 128);
    let regions = [BufferCopy { src: 0, dst: 4, size: 8 }];
    cb.copy_buffer(&src, &dst, Some(&regions));
    assert_eq!(cb.inner.commands().len(), 1);
    assert_eq!(
        cb.inner.commands()[0],
        NativeCommand::CopyBufferRegion { dst: 2, dst_offset: 4, src: 1, src_offset: 0, num_bytes: 8 }
    );
}

#[test]
fn copy_buffer_records_every_region_in_order() {
    let mut cb = CommandBuffer::new();
    let src = buffer(9, 0x100, 256);
    let dst = buffer(7, 0x200, 256);
    let regions = [
        BufferCopy { src: 0, dst: 0, size: 16 },
        BufferCopy { src: 32, dst: 64, size: 8 },
        BufferCopy { src: 128, dst: 0, size: 100 },
    ];
    cb.copy_buffer(&src, &dst, Some(&regions));
    let commands = cb.inner.commands();
    assert_eq!(commands.len(), 3);
    for (i, region) in regions.iter().enumerate() {
        assert_eq!(
            commands[i],
            NativeCommand::CopyBufferRegion {
                dst: 7,
                dst_offset: region.dst as u64,
                src: 9,
                src_offset: region.src as u64,
                num_bytes: region.size as u64,
            }
        );
    }
}

#[test]
fn copy_buffer_with_empty_region_list_records_nothing() {
    let mut cb = CommandBuffer::new();
    let src = buffer(1, 0, 64);
    let dst = buffer(2, 0, 64);
    let regions: [BufferCopy; 0] = [];
    cb.copy_buffer(&src, &dst, Some(&regions));
    assert_eq!(cb.inner.commands().len(), 0);
}

#[test]
fn bind_index_buffer_u16_selects_the_16_bit_format() {
    let mut cb = CommandBuffer::new();
    let ib = buffer(3, 0xDEAD_0000, 96);
    cb.bind_index_buffer(&ib, IndexType::U16);
    match &cb.inner.commands()[0] {
        NativeCommand::SetIndexBuffer { view } => {
            assert_eq!(view.format, DxgiFormat::R16Uint);
            assert_eq!(view.buffer_location, 0xDEAD_0000);
            assert_eq!(view.size_in_bytes, 96);
        }
        other => panic!("unexpected command {:?}", other),
    }
}

#[test]
fn bind_index_buffer_u32_selects_the_32_bit_format() {
    let mut cb = CommandBuffer::new();
    let ib = buffer(4, 0x4000, 128);
    cb.bind_index_buffer(&ib, IndexType::U32);
    match &cb.inner.commands()[0] {
        NativeCommand::SetIndexBuffer { view } => {
            assert_eq!(view.format, DxgiFormat::R32Uint);
            assert_eq!(view.buffer_location, 0x4000);
            assert_eq!(view.size_in_bytes, 128);
        }
        other => panic!("unexpected command {:?}", other),
    }
}

#[test]
fn set_viewports_produces_one_native_viewport_with_unit_depth_range() {
    let mut cb = CommandBuffer::new();
    cb.set_viewports(&[Rect { x: 0, y: 0, w: 800, h: 600 }]);
    match &cb.inner.commands()[0] {
        NativeCommand::SetViewports { viewports } => {
            assert_eq!(viewports.len(), 1);
            let vp = &viewports[0];
            assert_eq!(vp.top_left_x, 0f32.to_bits());
            assert_eq!(vp.top_left_y, 0f32.to_bits());
            assert_eq!(vp.width, 800f32.to_bits());
            assert_eq!(vp.height, 600f32.to_bits());
            assert_eq!(vp.min_depth, 0.0f32.to_bits());
            assert_eq!(vp.max_depth, 1.0f32.to_bits());
        }
        other => panic!("unexpected command {:?}", other),
    }
}

#[test]
fn set_viewports_maps_every_rectangle_in_order() {
    let mut cb = CommandBuffer::new();
    let rects = [
        Rect { x: 0, y: 0, w: 100, h: 200 },
        Rect { x: 10, y: 20, w: 30, h: 40 },
    ];
    cb.set_viewports(&rects);
    match &cb.inner.commands()[0] {
        NativeCommand::SetViewports { viewports } => {
            assert_eq!(viewports.len(), 2);
            for (vp, rect) in viewports.iter().zip(rects.iter()) {
                assert_eq!(vp.top_left_x, (rect.x as f32).to_bits());
                assert_eq!(vp.top_left_y, (rect.y as f32).to_bits());
                assert_eq!(vp.width, (rect.w as f32).to_bits());
                assert_eq!(vp.height, (rect.h as f32).to_bits());
            }
        }
        other => panic!("unexpected command {:?}", other),
    }
}

#[test]
fn clear_color_float_passes_bit_patterns_through() {
    let mut cb = CommandBuffer::new();
    let rtv = RenderTargetView { handle: 0x77 };
    let color = [0.25f32.to_bits(), 0.5f32.to_bits(), 0.75f32.to_bits(), 1.0f32.to_bits()];
    cb.clear_color(&rtv, ClearColor::Float(color));
    assert_eq!(
        cb.inner.commands()[0],
        NativeCommand::ClearRenderTargetView { rtv: 0x77, color }
    );
}

#[test]
fn clear_color_int_converts_components_to_float() {
    let mut cb = CommandBuffer::new();
    let rtv = RenderTargetView { handle: 1 };
    let components = [-1i32, 0, 255, i32::MIN];
    cb.clear_color(&rtv, ClearColor::Int(components));
    let expected = [
        (-1i32 as f32).to_bits(),
        (0i32 as f32).to_bits(),
        (255i32 as f32).to_bits(),
        (i32::MIN as f32).to_bits(),
    ];
    assert_eq!(
        cb.inner.commands()[0],
        NativeCommand::ClearRenderTargetView { rtv: 1, color: expected }
    );
}

#[test]
fn clear_color_uint_converts_components_to_float() {
    let mut cb = CommandBuffer::new();
    let rtv = RenderTargetView { handle: 2 };
    let components = [0u32, 1, 12345, u32::MAX];
    cb.clear_color(&rtv, ClearColor::Uint(components));
    let expected = [
        (0u32 as f32).to_bits(),
        (1u32 as f32).to_bits(),
        (12345u32 as f32).to_bits(),
        (u32::MAX as f32).to_bits(),
    ];
    assert_eq!(
        cb.inner.commands()[0],
        NativeCommand::ClearRenderTargetView { rtv: 2, color: expected }
    );
}

#[test]
fn dispatch_records_the_thread_group_counts() {
    let mut cb = CommandBuffer::new();
    cb.dispatch(4, 5, 6);
    assert_eq!(cb.inner.commands()[0], NativeCommand::Dispatch { x: 4, y: 5, z: 6 });
}

#[test]
fn end_closes_the_list_and_retains_the_recorded_calls() {
    let mut cb = CommandBuffer::new();
    cb.dispatch(1, 1, 1);
    cb.draw(0, 3, None);
    cb.set_viewports(&[Rect { x: 0, y: 0, w: 64, h: 64 }, Rect { x: 8, y: 8, w: 16, h: 16 }]);
    cb.clear_color(&RenderTargetView { handle: 3 }, ClearColor::Float([1, 2, 3, 4]));
    assert!(cb.inner.recording());
    let info = cb.end();
    assert!(!cb.inner.recording());
    assert!(!info.0.recording());
    assert_eq!(info.0.commands(), cb.inner.commands());
    assert_eq!(info.0.commands().len(), 4);
}

#[test]
fn operations_append_in_recording_order() {
    let mut cb = CommandBuffer::new();
    let src = buffer(1, 0, 16);
    let dst = buffer(2, 0, 16);
    cb.dispatch(1, 2, 3);
    cb.copy_buffer(&src, &dst, None);
    cb.draw(7, 9, None);
    let commands = cb.inner.commands();
    assert_eq!(commands.len(), 3);
    assert_eq!(commands[0], NativeCommand::Dispatch { x: 1, y: 2, z: 3 });
    assert_eq!(commands[1], NativeCommand::CopyResource { dst: 2, src: 1 });
    assert_eq!(
        commands[2],
        NativeCommand::DrawInstanced {
            vertex_count_per_instance: 9,
            instance_count: 1,
            start_vertex_location: 7,
            start_instance_location: 0,
        }
    );
}
