use gfx_backend::command::{AaMode, TextureKind};
use gfx_backend::descriptor::{descriptor_heap_desc, DescriptorHeap, DualHandle};
use gfx_backend::device::{
    wait_condition, wait_for_fences, BufferCreationError, Device, Dimension, Features, Format, Heap,
    HeapFlags, HeapProperties, ImageCreationError, MapRange, MappingError, Placement, ResourceHeapError,
    ResourceHeapType, ResourceState, TargetViewError, UnboundImage, WaitFor, E_OUTOFMEMORY, S_OK,
    WAIT_TIMEOUT,
};
use gfx_backend::memory::{Requirements, Usage};

fn pool(start: u64) -> DescriptorHeap {
    DescriptorHeap { handle_size: 32, total_handles: 4, start: DualHandle { cpu: start, gpu: start + 1 }, cursor: 0 }
}

fn device(heterogeneous: bool) -> Device {
    Device::new(Features { heterogeneous_resource_heaps: heterogeneous }, pool(1000), pool(2000), pool(3000))
}

fn heap(size: u64) -> Heap {
    Heap {
        raw: 77,
        properties: HeapProperties { device_local: true, cpu_visible: false, coherent: false, cpu_cached: false },
        size,
        default_state: ResourceState::Common,
    }
}

fn format(native: Option<u32>) -> Format {
    Format { surface: 3, channel: 1, bits_per_texel: 32, native, native_target: native }
}

fn d2_image() -> gfx_backend::device::Image {
    let dev = device(true);
    let desc = dev.create_image(TextureKind::D2(64, 32, AaMode::Single), 1, format(Some(28))).unwrap();
    let unbound = UnboundImage {
        desc,
        requirements: Requirements { size: 8192, alignment: 65536 },
        kind: TextureKind::D2(64, 32, AaMode::Single),
        usage: Usage::GpuOnly,
        bits_per_texel: 32,
        levels: 1,
    };
    dev.bind_image_memory(&heap(8192), 0, unbound).unwrap()
}

#[test]
fn consecutive_allocations_are_contiguous() {
    let mut h = DescriptorHeap {
        handle_size: 32,
        total_handles: 10,
        start: DualHandle { cpu: 1000, gpu: 5000 },
        cursor: 0,
    };
    let a = h.alloc_handles(3);
    let b = h.alloc_handles(2);
    assert_eq!(a, DualHandle { cpu: 1000, gpu: 5000 });
    assert_eq!(b, DualHandle { cpu: 1000 + 3 * 32, gpu: 5000 + 3 * 32 });
    assert_eq!(h.cursor, 5);
}

#[test]
fn descriptor_heap_over_native_heap() {
    let h = Device::create_descriptor_heap_impl(32, 16, DualHandle { cpu: 64, gpu: 128 }).unwrap();
    assert_eq!(h.total_handles, 16);
    assert_eq!(h.cursor, 0);
    assert!(Device::create_descriptor_heap_impl(u64::MAX, 2, DualHandle { cpu: 0, gpu: 0 }).is_err());
    let d = descriptor_heap_desc(2, true, 16);
    assert_eq!(d.num_descriptors, 16);
    assert!(d.shader_visible);
}

#[test]
fn heap_for_any_resource_needs_support() {
    let props = HeapProperties { device_local: true, cpu_visible: false, coherent: false, cpu_cached: false };
    assert_eq!(device(false).create_heap(props, ResourceHeapType::Any, 1024), Err(ResourceHeapError::UnsupportedType));
    let d = device(true).create_heap(props, ResourceHeapType::Any, 1024).unwrap();
    assert_eq!(d.flags, HeapFlags::AllowAllBuffersAndTextures);
    assert_eq!(d.size_in_bytes, 1024);
    let d = device(false).create_heap(props, ResourceHeapType::Targets, 8).unwrap();
    assert_eq!(d.flags, HeapFlags::AllowOnlyTargetTextures);
}

#[test]
fn heap_default_state_follows_properties() {
    let dev = device(true);
    let mut props = HeapProperties { device_local: false, cpu_visible: true, coherent: true, cpu_cached: false };
    let desc = dev.create_heap(props, ResourceHeapType::Buffers, 4096).unwrap();
    let h = Device::heap_from_native(&desc, S_OK, 5).unwrap();
    assert_eq!(h.default_state, ResourceState::GenericRead);
    assert_eq!(h.size, 4096);
    props.coherent = false;
    let desc = dev.create_heap(props, ResourceHeapType::Buffers, 4096).unwrap();
    assert_eq!(Device::heap_from_native(&desc, S_OK, 5).unwrap().default_state, ResourceState::CopyDest);
    props.cpu_visible = false;
    let desc = dev.create_heap(props, ResourceHeapType::Buffers, 4096).unwrap();
    assert_eq!(Device::heap_from_native(&desc, S_OK, 5).unwrap().default_state, ResourceState::Common);
    assert_eq!(Device::heap_from_native(&desc, E_OUTOFMEMORY, 5), Err(ResourceHeapError::OutOfMemory));
}

#[test]
fn buffer_round_trip_keeps_size() {
    let dev = device(true);
    let unbound = dev.create_buffer(1000, 16, Usage::GpuOnly).unwrap();
    assert_eq!(unbound.requirements, Requirements { size: 1000, alignment: 65536 });
    assert_eq!(dev.get_buffer_requirements(&unbound), Requirements { size: 1000, alignment: 65536 });
    assert!(dev.get_features().heterogeneous_resource_heaps);
    let b = dev.bind_buffer_memory(&heap(1000), 0, unbound).unwrap();
    assert_eq!(b.size_in_bytes, 1000);
    assert_eq!(b.stride, 16);
    assert_eq!(b.placement, Placement { heap: 77, offset: 0, init_state: ResourceState::Common });
}

#[test]
fn buffer_past_heap_end_is_refused() {
    let dev = device(true);
    let unbound = dev.create_buffer(600, 4, Usage::GpuOnly).unwrap();
    assert_eq!(dev.bind_buffer_memory(&heap(1000), 401, unbound).unwrap_err(), BufferCreationError::OutOfHeap);
    let unbound = dev.create_buffer(600, 4, Usage::GpuOnly).unwrap();
    assert!(dev.bind_buffer_memory(&heap(1000), 400, unbound).is_ok());
    let unbound = dev.create_buffer(u64::MAX, 4, Usage::GpuOnly).unwrap();
    assert!(dev.bind_buffer_memory(&heap(u64::MAX), 1, unbound).is_err());
}

#[test]
fn image_past_heap_end_is_refused() {
    let dev = device(true);
    let desc = dev.create_image(TextureKind::D2(8, 8, AaMode::Single), 1, format(Some(28))).unwrap();
    let unbound = UnboundImage {
        desc,
        requirements: Requirements { size: 256, alignment: 65536 },
        kind: TextureKind::D2(8, 8, AaMode::Single),
        usage: Usage::GpuOnly,
        bits_per_texel: 32,
        levels: 1,
    };
    assert_eq!(dev.get_image_requirements(&unbound).size, 256);
    assert_eq!(dev.bind_image_memory(&heap(300), 45, unbound).unwrap_err(), ImageCreationError::OutOfHeap);
}

#[test]
fn image_description_from_kind() {
    let dev = device(true);
    let d = dev.create_image(TextureKind::Cube(16), 4, format(Some(28))).unwrap();
    assert_eq!(d.dimension, Dimension::Texture3D);
    assert_eq!((d.width, d.height, d.depth_or_array_size), (16, 16, 6));
    assert_eq!(d.mip_levels, 4);
    assert_eq!(d.sample_count, 1);
    let d = dev.create_image(TextureKind::D2(32, 8, AaMode::Multi(4)), 1, format(Some(28))).unwrap();
    assert_eq!(d.sample_count, 4);
    assert_eq!(d.depth_or_array_size, 1);
    let d = dev.create_image(TextureKind::CubeArray(4, 3), 1, format(Some(28))).unwrap();
    assert_eq!(d.depth_or_array_size, 18);
}

#[test]
fn image_with_unmapped_format_fails() {
    let dev = device(true);
    let err = dev.create_image(TextureKind::D1(16), 1, format(None)).unwrap_err();
    assert_eq!(err, ImageCreationError::Format(3, Some(1)));
}

#[test]
fn mapping_past_buffer_end_is_refused() {
    let dev = device(true);
    let unbound = dev.create_buffer(100, 4, Usage::Dynamic).unwrap();
    let b = dev.bind_buffer_memory(&heap(100), 0, unbound).unwrap();
    assert_eq!(dev.write_mapping_raw(&b, 50, 101).unwrap_err(), MappingError::OutOfBounds);
    assert_eq!(dev.write_mapping_raw(&b, 60, 50).unwrap_err(), MappingError::OutOfBounds);
    let (range, _token) = dev.write_mapping_raw(&b, 50, 100).unwrap();
    assert_eq!(range, MapRange { begin: 50, end: 100 });
}

#[test]
fn views_take_descriptor_slots() {
    let image = d2_image();
    let mut dev = device(true);
    let rtv = dev.view_image_as_render_target(&image, format(Some(28))).unwrap();
    assert_eq!(rtv.handle, 1000);
    assert_eq!(rtv.format, 28);
    assert_eq!(dev.view_image_as_render_target(&image, format(None)).unwrap_err(), TargetViewError::BadFormat);
    assert_eq!(dev.rtv_pool.cursor, 2);
    let srv = dev.view_image_as_shader_resource(&image, format(Some(28))).unwrap();
    assert_eq!(srv.handle, 2000);
    assert_eq!(srv.dimension, Dimension::Texture2D);
    let s = dev.create_sampler();
    let t = dev.create_sampler();
    assert_eq!((s.handle, t.handle), (3000, 3032));
}

#[test]
fn wait_status_is_read() {
    assert!(wait_for_fences(0));
    assert!(wait_for_fences(1));
    assert!(wait_for_fences(63));
    assert!(!wait_for_fences(WAIT_TIMEOUT));
}

#[test]
fn wait_for_all_needs_every_fence() {
    assert!(!wait_condition(WaitFor::All, &vec![false, false]));
    assert!(!wait_condition(WaitFor::All, &vec![true, false]));
    assert!(!wait_condition(WaitFor::All, &vec![false, true]));
    assert!(wait_condition(WaitFor::All, &vec![true, true]));
    assert!(wait_condition(WaitFor::Any, &vec![false, true]));
    assert!(!wait_condition(WaitFor::Any, &vec![false, false]));
}

#[test]
fn wait_events_grow_and_never_shrink() {
    let mut dev = device(true);
    assert_eq!(dev.reserve_wait_events(3), 3);
    assert_eq!(dev.reserve_wait_events(2), 0);
    assert_eq!(dev.reserve_wait_events(5), 2);
    assert_eq!(dev.events, 5);
}

#[test]
fn bad_format_is_refused_for_any_image() {
    let dev = device(true);
    let desc = dev.create_image(TextureKind::D3(8, 8, 8), 1, format(Some(28))).unwrap();
    let unbound = UnboundImage {
        desc,
        requirements: Requirements { size: 256, alignment: 65536 },
        kind: TextureKind::D3(8, 8, 8),
        usage: Usage::GpuOnly,
        bits_per_texel: 32,
        levels: 1,
    };
    let image = dev.bind_image_memory(&heap(256), 0, unbound).unwrap();
    let mut dev = device(true);
    assert_eq!(dev.view_image_as_shader_resource(&image, format(None)).unwrap_err(), TargetViewError::BadFormat);
    assert_eq!(dev.view_image_as_render_target(&image, format(None)).unwrap_err(), TargetViewError::BadFormat);
    assert_eq!((dev.rtv_pool.cursor, dev.srv_pool.cursor), (1, 1));
}
