use vstd::prelude::*;
use crate::command::{AaMode, TextureKind};
use crate::descriptor::{DescriptorHeap, DualHandle};
use crate::memory::{Requirements, Usage};

verus! {

/// Placement alignment of every buffer.
pub const DEFAULT_RESOURCE_PLACEMENT_ALIGNMENT: u64 = 65536;
/// Native status of a successful call.
pub const S_OK: i32 = 0;
/// Native status of a creation that ran out of memory.
pub const E_OUTOFMEMORY: i32 = -2147024882;
/// The native code of a format that is not known.
pub const FORMAT_UNKNOWN: u32 = 0;

/// What the device supports.
#[derive(Clone, Copy, Debug, PartialEq, Eq, Structural)]
pub struct Features {
    pub heterogeneous_resource_heaps: bool,
}

/// Memory properties of a heap type.
#[derive(Clone, Copy, Debug, PartialEq, Eq, Structural)]
pub struct HeapProperties {
    pub device_local: bool,
    pub cpu_visible: bool,
    pub coherent: bool,
    pub cpu_cached: bool,
}

/// Which resources a heap may hold.
#[derive(Clone, Copy, Debug, PartialEq, Eq, Structural)]
pub enum ResourceHeapType {
    Any,
    Buffers,
    Images,
    Targets,
}

/// Native placement restriction of a heap.
#[derive(Clone, Copy, Debug, PartialEq, Eq, Structural)]
pub enum HeapFlags {
    AllowAllBuffersAndTextures,
    AllowOnlyBuffers,
    AllowOnlyNonTargetTextures,
    AllowOnlyTargetTextures,
}

/// The state a resource placed in a heap starts in.
#[derive(Clone, Copy, Debug, PartialEq, Eq, Structural)]
pub enum ResourceState {
    Common,
    GenericRead,
    CopyDest,
}

/// Why a heap could not be created.
#[derive(Clone, Copy, Debug, PartialEq, Eq, Structural)]
pub enum ResourceHeapError {
    UnsupportedType,
    OutOfMemory,
}

/// The native description of a heap to create.
#[derive(Clone, Copy, Debug, PartialEq, Eq, Structural)]
pub struct HeapDesc {
    pub size_in_bytes: u64,
    pub properties: HeapProperties,
    pub alignment: u64,
    pub flags: HeapFlags,
}

/// A region of device memory that resources are placed into.
#[derive(Clone, Copy, Debug, PartialEq, Eq, Structural)]
pub struct Heap {
    pub raw: u64,
    pub properties: HeapProperties,
    pub size: u64,
    pub default_state: ResourceState,
}

/// Where a resource is placed: heap, byte offset and initial state.
#[derive(Clone, Copy, Debug, PartialEq, Eq, Structural)]
pub struct Placement {
    pub heap: u64,
    pub offset: u64,
    pub init_state: ResourceState,
}

/// Why a buffer could not be created or bound.
#[derive(Clone, Copy, Debug, PartialEq, Eq, Structural)]
pub enum BufferCreationError {
    OutOfHeap,
    Other,
}

/// A buffer with its memory requirements, not yet placed in a heap.
#[derive(Debug)]
pub struct UnboundBuffer {
    pub requirements: Requirements,
    pub stride: u64,
    pub usage: Usage,
}

/// A buffer placed in a heap.
#[derive(Clone, Copy, Debug, PartialEq, Eq, Structural)]
pub struct Buffer {
    pub placement: Placement,
    pub size_in_bytes: u64,
    pub stride: u64,
}

/// The token of a mapping, handed back to release it.
#[derive(Debug, PartialEq, Eq, Structural, Hash)]
pub struct Mapping;

/// Why a mapping was refused.
#[derive(Clone, Copy, Debug, PartialEq, Eq, Structural)]
pub enum MappingError {
    OutOfBounds,
}

/// The byte range of a buffer to map natively.
#[derive(Clone, Copy, Debug, PartialEq, Eq, Structural)]
pub struct MapRange {
    pub begin: u64,
    pub end: u64,
}

/// A pixel format with its native codes, where it has them, for plain
/// and for target use.
#[derive(Clone, Copy, Debug, PartialEq, Eq, Structural)]
pub struct Format {
    pub surface: u8,
    pub channel: u8,
    pub bits_per_texel: u8,
    pub native: Option<u32>,
    pub native_target: Option<u32>,
}

/// Why an image could not be created or bound.
#[derive(Clone, Copy, Debug, PartialEq, Eq, Structural)]
pub enum ImageCreationError {
    Format(u8, Option<u8>),
    OutOfHeap,
}

/// Native dimensionality of a resource or view.
#[derive(Clone, Copy, Debug, PartialEq, Eq, Structural)]
pub enum Dimension {
    Texture1D,
    Texture2D,
    Texture3D,
}

/// The native description of an image resource.
#[derive(Clone, Copy, Debug, PartialEq, Eq, Structural)]
pub struct ImageDesc {
    pub dimension: Dimension,
    pub width: u64,
    pub height: u32,
    pub depth_or_array_size: u16,
    pub mip_levels: u16,
    pub format: u32,
    pub sample_count: u32,
}

/// An image with its memory requirements, not yet placed in a heap.
#[derive(Debug)]
pub struct UnboundImage {
    pub desc: ImageDesc,
    pub requirements: Requirements,
    pub kind: TextureKind,
    pub usage: Usage,
    pub bits_per_texel: u8,
    pub levels: u8,
}

/// An image placed in a heap.
#[derive(Clone, Copy, Debug, PartialEq, Eq, Structural)]
pub struct Image {
    pub placement: Placement,
    pub desc: ImageDesc,
    pub kind: TextureKind,
    pub bits_per_texel: u8,
    pub levels: u8,
}

/// Why a view could not be made.
#[derive(Clone, Copy, Debug, PartialEq, Eq, Structural)]
pub enum TargetViewError {
    BadFormat,
}

/// A render-target view: its descriptor slot and native format (a
/// two-dimensional view of mip level 0, plane 0).
#[derive(Clone, Copy, Debug, PartialEq, Eq, Structural)]
pub struct RenderTargetView {
    pub handle: u64,
    pub format: u32,
}

/// A shader-resource view: its descriptor slot, format and dimensionality,
/// covering every mip level from the most detailed.
#[derive(Clone, Copy, Debug, PartialEq, Eq, Structural)]
pub struct ShaderResourceView {
    pub handle: u64,
    pub format: u32,
    pub dimension: Dimension,
}

/// A sampler's descriptor slot.
#[derive(Clone, Copy, Debug, PartialEq, Eq, Structural)]
pub struct Sampler {
    pub handle: u64,
}

/// Which fences a wait waits for.
#[derive(Clone, Copy, Debug, PartialEq, Eq, Structural)]
pub enum WaitFor {
    Any,
    All,
}

/// Native wait status bounds.
pub const WAIT_OBJECT_0: u32 = 0;
pub const WAIT_TIMEOUT: u32 = 258;
pub const MAXIMUM_WAIT_OBJECTS: u32 = 64;

/// The device state that the explicit back end keeps besides its native
/// objects: features, the three descriptor pools for views and samplers,
/// and how many OS wait events have been made.
#[derive(Debug)]
pub struct Device {
    pub features: Features,
    pub rtv_pool: DescriptorHeap,
    pub srv_pool: DescriptorHeap,
    pub sampler_pool: DescriptorHeap,
    pub events: usize,
}

/// Requirements of a buffer of `size` bytes.
pub open spec fn buffer_requirements(size: u64) -> Requirements {
    Requirements { size, alignment: DEFAULT_RESOURCE_PLACEMENT_ALIGNMENT }
}

/// The buffer that placing one with `requirements` and `stride` in `heap`
/// at `offset` gives, or the out-of-heap error when it would reach past the
/// heap's end.
pub open spec fn buffer_binding(heap: Heap, offset: u64, requirements: Requirements, stride: u64) -> Result<Buffer, BufferCreationError> {
    if offset + requirements.size > heap.size {
        Err(BufferCreationError::OutOfHeap)
    } else {
        Ok(Buffer {
            placement: Placement { heap: heap.raw, offset, init_state: heap.default_state },
            size_in_bytes: requirements.size,
            stride,
        })
    }
}

/// A buffer created with `size` bytes and `stride`, bound at offset 0 in a
/// heap of at least `size` bytes, is bound and reports exactly `size` bytes
/// and `stride`.
pub proof fn lemma_buffer_round_trip(heap: Heap, size: u64, stride: u64)
    requires
        heap.size >= size,
    ensures
        buffer_binding(heap, 0, buffer_requirements(size), stride) is Ok,
        buffer_binding(heap, 0, buffer_requirements(size), stride)->Ok_0.size_in_bytes == size,
        buffer_binding(heap, 0, buffer_requirements(size), stride)->Ok_0.stride == stride,
{
}

/// Placement flags for a heap of `resource_type`, or why there are none.
pub open spec fn heap_flags(features: Features, resource_type: ResourceHeapType) -> Result<HeapFlags, ResourceHeapError> {
    match resource_type {
        ResourceHeapType::Any => if features.heterogeneous_resource_heaps {
            Ok(HeapFlags::AllowAllBuffersAndTextures)
        } else {
            Err(ResourceHeapError::UnsupportedType)
        },
        ResourceHeapType::Buffers => Ok(HeapFlags::AllowOnlyBuffers),
        ResourceHeapType::Images => Ok(HeapFlags::AllowOnlyNonTargetTextures),
        ResourceHeapType::Targets => Ok(HeapFlags::AllowOnlyTargetTextures),
    }
}

/// Initial state of resources placed in a heap with `properties`.
pub open spec fn default_state(properties: HeapProperties) -> ResourceState {
    if !properties.cpu_visible {
        ResourceState::Common
    } else if properties.coherent {
        ResourceState::GenericRead
    } else {
        ResourceState::CopyDest
    }
}

/// Width, height and depth or layer count of an image of kind `kind`.
pub open spec fn kind_dimensions(kind: TextureKind) -> (u16, u16, int) {
    match kind {
        TextureKind::D1(w) => (w, 0, 0),
        TextureKind::D1Array(w, a) => (w, 0, a as int),
        TextureKind::D2(w, h, _) => (w, h, 0),
        TextureKind::D2Array(w, h, a, _) => (w, h, a as int),
        TextureKind::D3(w, h, d) => (w, h, d as int),
        TextureKind::Cube(w) => (w, w, 6),
        TextureKind::CubeArray(w, a) => (w, w, 6 * a),
    }
}

/// Number of samples per texel of an image of kind `kind`.
pub open spec fn kind_fragments(kind: TextureKind) -> u8 {
    let aa = match kind {
        TextureKind::D2(_, _, aa) => aa,
        TextureKind::D2Array(_, _, _, aa) => aa,
        _ => AaMode::Single,
    };
    match aa {
        AaMode::Single => 1,
        AaMode::Multi(n) => n,
        AaMode::Coverage(_, n) => n,
    }
}

/// Native dimensionality of an image of kind `kind`.
pub open spec fn kind_dimension(kind: TextureKind) -> Dimension {
    match kind {
        TextureKind::D1(..) | TextureKind::D1Array(..) => Dimension::Texture1D,
        TextureKind::D2(..) | TextureKind::D2Array(..) => Dimension::Texture2D,
        _ => Dimension::Texture3D,
    }
}

/// The native description of an image, or the format error.
pub open spec fn image_desc(kind: TextureKind, mip_levels: u8, format: Format) -> Result<ImageDesc, ImageCreationError> {
    match format.native {
        None => Err(ImageCreationError::Format(format.surface, Some(format.channel))),
        Some(f) => {
            let (w, h, d) = kind_dimensions(kind);
            Ok(ImageDesc {
                dimension: kind_dimension(kind),
                width: w as u64,
                height: h as u32,
                depth_or_array_size: if d < 1 { 1u16 } else { d as u16 },
                mip_levels: mip_levels as u16,
                format: f,
                sample_count: kind_fragments(kind) as u32,
            })
        },
    }
}

fn kind_dimension_exec(kind: TextureKind) -> (r: Dimension)
    ensures
        r == kind_dimension(kind),
{
    match kind {
        TextureKind::D1(..) | TextureKind::D1Array(..) => Dimension::Texture1D,
        TextureKind::D2(..) | TextureKind::D2Array(..) => Dimension::Texture2D,
        _ => Dimension::Texture3D,
    }
}

impl Device {
    pub open spec fn wf(&self) -> bool {
        &&& self.rtv_pool.wf()
        &&& self.srv_pool.wf()
        &&& self.sampler_pool.wf()
    }

    /// A device with the given features and descriptor pools, before any
    /// wait event is made.
    pub fn new(features: Features, rtv_pool: DescriptorHeap, srv_pool: DescriptorHeap, sampler_pool: DescriptorHeap) -> (r: Device)
        ensures
            r.features == features,
            r.rtv_pool == rtv_pool,
            r.srv_pool == srv_pool,
            r.sampler_pool == sampler_pool,
            r.events == 0,
    {
        Device { features, rtv_pool, srv_pool, sampler_pool, events: 0 }
    }

    /// A descriptor heap over the native heap whose first slot has handles
    /// `start`, with slots `handle_size` apart and room for `capacity`.
    pub fn create_descriptor_heap_impl(handle_size: u64, capacity: usize, start: DualHandle) -> (r: Result<DescriptorHeap, ()>)
        ensures
            r is Ok <==> (start.cpu + capacity * handle_size <= u64::MAX
                && start.gpu + capacity * handle_size <= u64::MAX),
            r is Ok ==> r->Ok_0 == (DescriptorHeap {
                handle_size,
                total_handles: capacity as u64,
                start,
                cursor: 0,
            }) && r->Ok_0.wf(),
    {
        assert(handle_size as int * capacity as int <= u64::MAX as int * u64::MAX as int) by (nonlinear_arith)
            requires handle_size <= u64::MAX, capacity <= u64::MAX;
        let total = handle_size as u128 * capacity as u128;
        assert(total == capacity * handle_size) by (nonlinear_arith)
            requires total == handle_size as int * capacity as int;
        if total > u64::MAX as u128 || start.cpu as u128 + total > u64::MAX as u128
            || start.gpu as u128 + total > u64::MAX as u128 {
            Err(())
        } else {
            Ok(DescriptorHeap { handle_size, total_handles: capacity as u64, start, cursor: 0 })
        }
    }

    /// The native description of a heap of `size` bytes for `resource_type`;
    /// a heap for any resource needs heterogeneous heap support.
    pub fn create_heap(&self, properties: HeapProperties, resource_type: ResourceHeapType, size: u64) -> (r: Result<HeapDesc, ResourceHeapError>)
        ensures
            match heap_flags(self.features, resource_type) {
                Ok(flags) => r == Ok::<HeapDesc, ResourceHeapError>(HeapDesc {
                    size_in_bytes: size,
                    properties,
                    alignment: 0,
                    flags,
                }),
                Err(e) => r == Err::<HeapDesc, ResourceHeapError>(e),
            },
    {
        let flags = match resource_type {
            ResourceHeapType::Any => {
                if !self.features.heterogeneous_resource_heaps {
                    return Err(ResourceHeapError::UnsupportedType);
                }
                HeapFlags::AllowAllBuffersAndTextures
            },
            ResourceHeapType::Buffers => HeapFlags::AllowOnlyBuffers,
            ResourceHeapType::Images => HeapFlags::AllowOnlyNonTargetTextures,
            ResourceHeapType::Targets => HeapFlags::AllowOnlyTargetTextures,
        };
        Ok(HeapDesc { size_in_bytes: size, properties, alignment: 0, flags })
    }

    /// The heap that the native creation of `desc` gave, by its status.
    pub fn heap_from_native(desc: &HeapDesc, status: i32, raw: u64) -> (r: Result<Heap, ResourceHeapError>)
        requires
            status == S_OK || status == E_OUTOFMEMORY,
        ensures
            status == E_OUTOFMEMORY ==> r == Err::<Heap, ResourceHeapError>(ResourceHeapError::OutOfMemory),
            status == S_OK ==> r == Ok::<Heap, ResourceHeapError>(Heap {
                raw,
                properties: desc.properties,
                size: desc.size_in_bytes,
                default_state: default_state(desc.properties),
            }),
    {
        if status == E_OUTOFMEMORY {
            return Err(ResourceHeapError::OutOfMemory);
        }
        let state = if !desc.properties.cpu_visible {
            ResourceState::Common
        } else if desc.properties.coherent {
            ResourceState::GenericRead
        } else {
            ResourceState::CopyDest
        };
        Ok(Heap { raw, properties: desc.properties, size: desc.size_in_bytes, default_state: state })
    }

    /// A buffer of `size` bytes, not yet in a heap.
    pub fn create_buffer(&self, size: u64, stride: u64, usage: Usage) -> (r: Result<UnboundBuffer, BufferCreationError>)
        ensures
            r is Ok,
            r->Ok_0.requirements == buffer_requirements(size),
            r->Ok_0.stride == stride,
            r->Ok_0.usage == usage,
    {
        Ok(UnboundBuffer {
            requirements: Requirements { size, alignment: DEFAULT_RESOURCE_PLACEMENT_ALIGNMENT },
            stride,
            usage,
        })
    }

    /// Memory requirements of a buffer that is not bound yet.
    pub fn get_buffer_requirements(&self, buffer: &UnboundBuffer) -> (r: Requirements)
        ensures
            r == buffer.requirements,
    {
        buffer.requirements
    }

    /// What the device supports.
    pub fn get_features(&self) -> (r: &Features)
        ensures
            *r == self.features,
    {
        &self.features
    }

    /// Places `buffer` in `heap` at byte `offset`, in the heap's default
    /// state; refused when it would reach past the heap's end.
    pub fn bind_buffer_memory(&self, heap: &Heap, offset: u64, buffer: UnboundBuffer) -> (r: Result<Buffer, BufferCreationError>)
        ensures
            r == buffer_binding(*heap, offset, buffer.requirements, buffer.stride),
            r is Err <==> offset + buffer.requirements.size > heap.size,
    {
        if offset > heap.size || buffer.requirements.size > heap.size - offset {
            return Err(BufferCreationError::OutOfHeap);
        }
        Ok(Buffer {
            placement: Placement { heap: heap.raw, offset, init_state: heap.default_state },
            size_in_bytes: buffer.requirements.size,
            stride: buffer.stride,
        })
    }

    /// The native description of an image; fails on a format that has no
    /// native code. A cube array's layer count must fit the native field.
    pub fn create_image(&self, kind: TextureKind, mip_levels: u8, format: Format) -> (r: Result<ImageDesc, ImageCreationError>)
        requires
            kind_dimensions(kind).2 <= u16::MAX,
        ensures
            r == image_desc(kind, mip_levels, format),
    {
        let native = match format.native {
            Some(f) => f,
            None => return Err(ImageCreationError::Format(format.surface, Some(format.channel))),
        };
        let (w, h, d): (u16, u16, u16) = match kind {
            TextureKind::D1(w) => (w, 0, 0),
            TextureKind::D1Array(w, a) => (w, 0, a),
            TextureKind::D2(w, h, _) => (w, h, 0),
            TextureKind::D2Array(w, h, a, _) => (w, h, a),
            TextureKind::D3(w, h, d) => (w, h, d),
            TextureKind::Cube(w) => (w, w, 6),
            TextureKind::CubeArray(w, a) => (w, w, 6 * a),
        };
        let aa = match kind {
            TextureKind::D2(_, _, aa) => aa,
            TextureKind::D2Array(_, _, _, aa) => aa,
            _ => AaMode::Single,
        };
        let fragments: u8 = match aa {
            AaMode::Single => 1,
            AaMode::Multi(n) => n,
            AaMode::Coverage(_, n) => n,
        };
        Ok(ImageDesc {
            dimension: kind_dimension_exec(kind),
            width: w as u64,
            height: h as u32,
            depth_or_array_size: if d < 1 { 1u16 } else { d },
            mip_levels: mip_levels as u16,
            format: native,
            sample_count: fragments as u32,
        })
    }

    /// Memory requirements of an image that is not bound yet.
    pub fn get_image_requirements(&self, image: &UnboundImage) -> (r: Requirements)
        ensures
            r == image.requirements,
    {
        image.requirements
    }

    /// Places `image` in `heap` at byte `offset`, in the heap's default
    /// state; refused when it would reach past the heap's end.
    pub fn bind_image_memory(&self, heap: &Heap, offset: u64, image: UnboundImage) -> (r: Result<Image, ImageCreationError>)
        ensures
            r is Err <==> offset + image.requirements.size > heap.size,
            r is Err ==> r->Err_0 == ImageCreationError::OutOfHeap,
            r is Ok ==> r->Ok_0 == (Image {
                placement: Placement { heap: heap.raw, offset, init_state: heap.default_state },
                desc: image.desc,
                kind: image.kind,
                bits_per_texel: image.bits_per_texel,
                levels: image.levels,
            }),
    {
        if offset > heap.size || image.requirements.size > heap.size - offset {
            return Err(ImageCreationError::OutOfHeap);
        }
        Ok(Image {
            placement: Placement { heap: heap.raw, offset, init_state: heap.default_state },
            desc: image.desc,
            kind: image.kind,
            bits_per_texel: image.bits_per_texel,
            levels: image.levels,
        })
    }

    /// The byte range `start..end` of `buf` to map for writing, with the
    /// token that releases it; refused when the range is not inside the buffer.
    pub fn write_mapping_raw(&self, buf: &Buffer, start: u64, end: u64) -> (r: Result<(MapRange, Mapping), MappingError>)
        ensures
            r is Err <==> (start > end || end > buf.size_in_bytes),
            r is Err ==> r->Err_0 == MappingError::OutOfBounds,
            r is Ok ==> r->Ok_0.0 == (MapRange { begin: start, end }),
    {
        if start > end || end > buf.size_in_bytes {
            return Err(MappingError::OutOfBounds);
        }
        Ok((MapRange { begin: start, end }, Mapping))
    }

    /// A render-target view of a single-sampled two-dimensional image; a
    /// format with no native target code is refused for any image. A
    /// descriptor slot of the render-target pool is taken first, whatever
    /// the outcome.
    pub fn view_image_as_render_target(&mut self, image: &Image, format: Format) -> (r: Result<RenderTargetView, TargetViewError>)
        requires
            old(self).wf(),
            old(self).rtv_pool.cursor + 1 <= old(self).rtv_pool.total_handles,
            format.native_target is Some ==> image.kind matches TextureKind::D2(_, _, AaMode::Single),
        ensures
            final(self).wf(),
            final(self).rtv_pool == old(self).rtv_pool.advanced(1),
            final(self).srv_pool == old(self).srv_pool,
            final(self).sampler_pool == old(self).sampler_pool,
            final(self).features == old(self).features,
            final(self).events == old(self).events,
            r is Err <==> format.native_target is None,
            r is Err ==> r->Err_0 == TargetViewError::BadFormat,
            r is Ok ==> r->Ok_0 == (RenderTargetView {
                handle: old(self).rtv_pool.handle_at(old(self).rtv_pool.cursor as int).cpu,
                format: format.native_target->0,
            }),
    {
        let handle = self.rtv_pool.alloc_handles(1).cpu;
        match format.native_target {
            Some(f) => Ok(RenderTargetView { handle, format: f }),
            None => Err(TargetViewError::BadFormat),
        }
    }

    /// A shader-resource view of a single-sampled two-dimensional image; a
    /// format with no native code is refused for any image. A descriptor
    /// slot of the shader-resource pool is taken first, whatever the outcome.
    pub fn view_image_as_shader_resource(&mut self, image: &Image, format: Format) -> (r: Result<ShaderResourceView, TargetViewError>)
        requires
            old(self).wf(),
            old(self).srv_pool.cursor + 1 <= old(self).srv_pool.total_handles,
            format.native is Some ==> image.kind matches TextureKind::D2(_, _, AaMode::Single),
        ensures
            final(self).wf(),
            final(self).srv_pool == old(self).srv_pool.advanced(1),
            final(self).rtv_pool == old(self).rtv_pool,
            final(self).sampler_pool == old(self).sampler_pool,
            final(self).features == old(self).features,
            final(self).events == old(self).events,
            r is Err <==> format.native is None,
            r is Err ==> r->Err_0 == TargetViewError::BadFormat,
            r is Ok ==> r->Ok_0 == (ShaderResourceView {
                handle: old(self).srv_pool.handle_at(old(self).srv_pool.cursor as int).cpu,
                format: format.native->0,
                dimension: kind_dimension(image.kind),
            }),
    {
        let handle = self.srv_pool.alloc_handles(1).cpu;
        let dimension = kind_dimension_exec(image.kind);
        match format.native {
            Some(f) => Ok(ShaderResourceView { handle, format: f, dimension }),
            None => Err(TargetViewError::BadFormat),
        }
    }

    /// A sampler in the next slot of the sampler pool.
    pub fn create_sampler(&mut self) -> (r: Sampler)
        requires
            old(self).wf(),
            old(self).sampler_pool.cursor + 1 <= old(self).sampler_pool.total_handles,
        ensures
            final(self).wf(),
            final(self).sampler_pool == old(self).sampler_pool.advanced(1),
            final(self).rtv_pool == old(self).rtv_pool,
            final(self).srv_pool == old(self).srv_pool,
            final(self).features == old(self).features,
            final(self).events == old(self).events,
            r.handle == old(self).sampler_pool.handle_at(old(self).sampler_pool.cursor as int).cpu,
    {
        let handle = self.sampler_pool.alloc_handles(1).cpu;
        Sampler { handle }
    }

    /// Grows the pool of OS wait events to hold one per fence and returns how
    /// many new events are to be made; the pool never shrinks.
    pub fn reserve_wait_events(&mut self, fence_count: usize) -> (r: usize)
        ensures
            final(self).events == if fence_count > old(self).events { fence_count } else { old(self).events },
            r == final(self).events - old(self).events,
            final(self).features == old(self).features,
            final(self).rtv_pool == old(self).rtv_pool,
            final(self).srv_pool == old(self).srv_pool,
            final(self).sampler_pool == old(self).sampler_pool,
    {
        if fence_count > self.events {
            let n = fence_count - self.events;
            self.events = fence_count;
            n
        } else {
            0
        }
    }
}

/// Whether a wait for `mode` is satisfied when fence `i` has signalled
/// exactly when `signalled[i]`.
pub open spec fn wait_satisfied(mode: WaitFor, signalled: Seq<bool>) -> bool {
    match mode {
        WaitFor::All => forall|i: int| 0 <= i < signalled.len() ==> #[trigger] signalled[i],
        WaitFor::Any => exists|i: int| 0 <= i < signalled.len() && #[trigger] signalled[i],
    }
}

/// Native wait statuses that the wait knows how to read: one of the waited
/// objects signalled, or the timeout passed. Any other status is fatal.
pub open spec fn wait_status_known(status: u32) -> bool {
    ||| WAIT_OBJECT_0 <= status < WAIT_OBJECT_0 + MAXIMUM_WAIT_OBJECTS
    ||| status == WAIT_TIMEOUT
}

/// Whether a multi-object wait ended with its condition met (true) or by
/// timing out (false), read from its native status.
pub fn wait_for_fences(status: u32) -> (r: bool)
    requires
        wait_status_known(status),
    ensures
        r <==> status != WAIT_TIMEOUT,
{
    status != WAIT_TIMEOUT
}

/// Whether a wait for `mode` on fences in the states `signalled` is met.
pub fn wait_condition(mode: WaitFor, signalled: &Vec<bool>) -> (r: bool)
    ensures
        r == wait_satisfied(mode, signalled@),
{
    let mut i: usize = 0;
    while i < signalled.len()
        invariant
            i <= signalled@.len(),
            mode == WaitFor::All ==> forall|j: int| 0 <= j < i ==> #[trigger] signalled@[j],
            mode == WaitFor::Any ==> forall|j: int| 0 <= j < i ==> !#[trigger] signalled@[j],
        decreases signalled@.len() - i,
    {
        match mode {
            WaitFor::All => {
                if !signalled[i] {
                    return false;
                }
            },
            WaitFor::Any => {
                if signalled[i] {
                    return true;
                }
            },
        }
        i = i + 1;
    }
    mode == WaitFor::All
}

/// Whether a wait is met does not depend on the order of the fences:
/// swapping two of them gives the same answer.
pub proof fn lemma_wait_order_free(mode: WaitFor, signalled: Seq<bool>, i: int, j: int)
    requires
        0 <= i < signalled.len(),
        0 <= j < signalled.len(),
    ensures
        wait_satisfied(mode, signalled) == wait_satisfied(
            mode,
            signalled.update(i, signalled[j]).update(j, signalled[i]),
        ),
{
    let t = signalled.update(i, signalled[j]).update(j, signalled[i]);
    assert(forall|k: int| 0 <= k < t.len() ==> t[k] == signalled[if k == i { j } else if k == j { i } else { k }]);
    match mode {
        WaitFor::All => {
            if wait_satisfied(mode, signalled) {
                assert forall|k: int| 0 <= k < t.len() implies #[trigger] t[k] by {
                    let kk = if k == i { j } else if k == j { i } else { k };
                    assert(signalled[kk]);
                }
            }
            if wait_satisfied(mode, t) {
                assert forall|k: int| 0 <= k < signalled.len() implies #[trigger] signalled[k] by {
                    let kk = if k == i { j } else if k == j { i } else { k };
                    assert(t[kk]);
                }
            }
        },
        WaitFor::Any => {
            if wait_satisfied(mode, signalled) {
                let k = choose|k: int| 0 <= k < signalled.len() && #[trigger] signalled[k];
                let kk = if k == i { j } else if k == j { i } else { k };
                assert(t[kk]);
            }
            if wait_satisfied(mode, t) {
                let k = choose|k: int| 0 <= k < t.len() && #[trigger] t[k];
                let kk = if k == i { j } else if k == j { i } else { k };
                assert(signalled[kk]);
            }
        },
    }
}

} // verus!
