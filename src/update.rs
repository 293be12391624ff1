use vstd::prelude::*;
use crate::command::{Buffer, CubeFace, DataPointer, Diagnostic, NativeCall, RawImageInfo, Texture, TextureKind, UpdateBox};
use crate::memory::{usage_is_read_only, Usage};

verus! {

/// The highest mip level that extents are reduced by.
pub const MAX_LEVEL: u8 = 15;

/// Array slice of a cube face, in the order PosX, NegX, PosY, NegY, PosZ, NegZ.
pub open spec fn face_slice(face: Option<CubeFace>) -> u32 {
    match face {
        Some(CubeFace::PosX) => 0,
        Some(CubeFace::NegX) => 1,
        Some(CubeFace::PosY) => 2,
        Some(CubeFace::NegY) => 3,
        Some(CubeFace::PosZ) => 4,
        Some(CubeFace::NegZ) => 5,
        None => 0,
    }
}

/// Subresource index `slice * levels + level`, with the level count taken as one.
pub open spec fn subresource_index(face: Option<CubeFace>, mipmap: u8) -> u32 {
    (face_slice(face) * 1 + mipmap) as u32
}

/// Extent `v` at mip level `level`: halved per level, never below one unless zero.
pub open spec fn level_extent(v: u16, level: u8) -> u16 {
    let l = if level < MAX_LEVEL { level } else { MAX_LEVEL };
    if v == 0 {
        0
    } else if (v >> l) == 0u16 {
        1
    } else {
        v >> l
    }
}

/// Width and height of a texture of kind `kind` at its base level.
pub open spec fn base_extent(kind: TextureKind) -> (u16, u16) {
    match kind {
        TextureKind::D1(w) => (w, 0),
        TextureKind::D1Array(w, _) => (w, 0),
        TextureKind::D2(w, h, _) => (w, h),
        TextureKind::D2Array(w, h, _, _) => (w, h),
        TextureKind::D3(w, h, _) => (w, h),
        TextureKind::Cube(w) => (w, w),
        TextureKind::CubeArray(w, _) => (w, w),
    }
}

/// Bytes per row of the update: level width times texel bits.
pub open spec fn row_pitch(kind: TextureKind, image: RawImageInfo) -> int {
    level_extent(base_extent(kind).0, image.mipmap) * image.bits_per_texel
}

/// Bytes per depth slice of the update: level height times the row pitch.
pub open spec fn depth_pitch(kind: TextureKind, image: RawImageInfo) -> int {
    level_extent(base_extent(kind).1, image.mipmap) * row_pitch(kind, image)
}

/// The region of a texture that an update writes.
pub open spec fn texture_box(image: RawImageInfo) -> UpdateBox {
    UpdateBox {
        left: image.xoffset as u32,
        top: image.yoffset as u32,
        front: image.zoffset as u32,
        right: (image.xoffset + image.width) as u32,
        bottom: (image.yoffset + image.height) as u32,
        back: (image.zoffset + image.depth) as u32,
    }
}

/// The bytes of a buffer that an update writes.
pub open spec fn buffer_box(offset_bytes: usize, data: DataPointer) -> UpdateBox {
    UpdateBox {
        left: offset_bytes as u32,
        top: 0,
        front: 0,
        right: (offset_bytes + data.size) as u32,
        bottom: 1,
        back: 1,
    }
}

/// Calls that write `data` into `buffer` at `offset_bytes`, chosen by the buffer's usage.
pub open spec fn buffer_update_calls(buffer: Buffer, data: DataPointer, offset_bytes: usize) -> Seq<NativeCall> {
    if usage_is_read_only(buffer.usage) {
        seq![NativeCall::ReportError { diagnostic: Diagnostic::ImmutableBuffer(buffer.resource) }]
    } else if buffer.usage is GpuOnly {
        seq![NativeCall::UpdateSubresource {
            resource: buffer.resource,
            subresource: 0,
            dst_box: buffer_box(offset_bytes, data),
            data,
            row_pitch: 0,
            depth_pitch: 0,
        }]
    } else {
        seq![
            NativeCall::MapWriteDiscard { resource: buffer.resource, subresource: 0 },
            NativeCall::CopyToMapped { offset: offset_bytes, data },
            NativeCall::Unmap { resource: buffer.resource, subresource: 0 },
        ]
    }
}

/// Calls that write `data` into a region of `texture`, chosen by the texture's usage.
pub open spec fn texture_update_calls(
    texture: Texture,
    kind: TextureKind,
    face: Option<CubeFace>,
    data: DataPointer,
    image: RawImageInfo,
) -> Seq<NativeCall> {
    let subresource = subresource_index(face, image.mipmap);
    if usage_is_read_only(texture.usage) {
        seq![NativeCall::ReportError { diagnostic: Diagnostic::ImmutableTexture(texture.resource) }]
    } else if texture.usage is GpuOnly {
        seq![NativeCall::UpdateSubresource {
            resource: texture.resource,
            subresource,
            dst_box: texture_box(image),
            data,
            row_pitch: row_pitch(kind, image) as u32,
            depth_pitch: depth_pitch(kind, image) as u32,
        }]
    } else {
        seq![
            NativeCall::MapWriteDiscard { resource: texture.resource, subresource },
            NativeCall::CopyToMapped { offset: 0, data },
            NativeCall::Unmap { resource: texture.resource, subresource },
        ]
    }
}

/// Inputs on which a buffer update has a defined strategy: persistent
/// mapping is not supported, and a driver copy addresses bytes with 32 bits.
pub open spec fn buffer_update_supported(buffer: Buffer, data: DataPointer, offset_bytes: usize) -> bool {
    &&& !(buffer.usage is Persistent)
    &&& buffer.usage is GpuOnly ==> offset_bytes + data.size <= u32::MAX
}

/// Inputs on which a texture update has a defined strategy: persistent
/// mapping is not supported, and a driver copy's pitches fit in 32 bits.
pub open spec fn texture_update_supported(texture: Texture, kind: TextureKind, image: RawImageInfo) -> bool {
    &&& !(texture.usage is Persistent)
    &&& texture.usage is GpuOnly ==> depth_pitch(kind, image) <= u32::MAX
}

fn level_extent_exec(v: u16, level: u8) -> (r: u16)
    ensures
        r == level_extent(v, level),
{
    let l = if level < MAX_LEVEL { level } else { MAX_LEVEL };
    if v == 0 {
        0
    } else if (v >> l) == 0u16 {
        1
    } else {
        v >> l
    }
}

fn base_extent_exec(kind: TextureKind) -> (r: (u16, u16))
    ensures
        r == base_extent(kind),
{
    match kind {
        TextureKind::D1(w) => (w, 0),
        TextureKind::D1Array(w, _) => (w, 0),
        TextureKind::D2(w, h, _) => (w, h),
        TextureKind::D2Array(w, h, _, _) => (w, h),
        TextureKind::D3(w, h, _) => (w, h),
        TextureKind::Cube(w) => (w, w),
        TextureKind::CubeArray(w, _) => (w, w),
    }
}

fn face_slice_exec(face: Option<CubeFace>) -> (r: u32)
    ensures
        r == face_slice(face),
{
    match face {
        Some(CubeFace::PosX) => 0,
        Some(CubeFace::NegX) => 1,
        Some(CubeFace::PosY) => 2,
        Some(CubeFace::NegY) => 3,
        Some(CubeFace::PosZ) => 4,
        Some(CubeFace::NegZ) => 5,
        None => 0,
    }
}

fn is_read_only(usage: Usage) -> (r: bool)
    ensures
        r == usage_is_read_only(usage),
{
    match usage {
        Usage::Immutable => true,
        Usage::CpuOnly(a) => a.read && !a.write,
        _ => false,
    }
}

/// Writes `data` into `buffer` starting at byte `offset_bytes`. A read-only
/// buffer is left alone and an error event is reported; a GPU-only buffer is
/// written by a driver copy; any other by a discard map, a copy and an unmap.
pub fn update_buffer(buffer: &Buffer, data: DataPointer, offset_bytes: usize) -> (r: Vec<NativeCall>)
    requires
        buffer_update_supported(*buffer, data, offset_bytes),
    ensures
        r@ == buffer_update_calls(*buffer, data, offset_bytes),
        usage_is_read_only(buffer.usage) ==> r@.len() == 1 && r@[0] is ReportError,
{
    let mut r: Vec<NativeCall> = Vec::new();
    if is_read_only(buffer.usage) {
        r.push(NativeCall::ReportError { diagnostic: Diagnostic::ImmutableBuffer(buffer.resource) });
    } else if let Usage::GpuOnly = buffer.usage {
        let dst_box = UpdateBox {
            left: offset_bytes as u32,
            top: 0,
            front: 0,
            right: (offset_bytes + data.size as usize) as u32,
            bottom: 1,
            back: 1,
        };
        r.push(NativeCall::UpdateSubresource {
            resource: buffer.resource,
            subresource: 0,
            dst_box,
            data,
            row_pitch: 0,
            depth_pitch: 0,
        });
    } else {
        r.push(NativeCall::MapWriteDiscard { resource: buffer.resource, subresource: 0 });
        r.push(NativeCall::CopyToMapped { offset: offset_bytes, data });
        r.push(NativeCall::Unmap { resource: buffer.resource, subresource: 0 });
    }
    assert(r@ =~= buffer_update_calls(*buffer, data, offset_bytes));
    r
}

/// Writes `data` into the region `image` of one subresource of `texture`.
/// A read-only texture is left alone and an error event is reported; a
/// GPU-only texture is written by a driver copy with pitches derived from
/// the level's extent and the texel size; any other by a discard map of
/// the subresource, a copy from its start and an unmap.
pub fn update_texture(
    texture: &Texture,
    kind: TextureKind,
    face: Option<CubeFace>,
    data: DataPointer,
    image: &RawImageInfo,
) -> (r: Vec<NativeCall>)
    requires
        texture_update_supported(*texture, kind, *image),
    ensures
        r@ == texture_update_calls(*texture, kind, face, data, *image),
        usage_is_read_only(texture.usage) ==> r@.len() == 1 && r@[0] is ReportError,
        !usage_is_read_only(texture.usage) ==> forall|i: int| 0 <= i < r@.len() ==> !(#[trigger] r@[i] is ReportError),
{
    let mut r: Vec<NativeCall> = Vec::new();
    let subresource = face_slice_exec(face) * 1 + image.mipmap as u32;
    if is_read_only(texture.usage) {
        r.push(NativeCall::ReportError { diagnostic: Diagnostic::ImmutableTexture(texture.resource) });
    } else if !matches!(texture.usage, Usage::GpuOnly) {
        r.push(NativeCall::MapWriteDiscard { resource: texture.resource, subresource });
        r.push(NativeCall::CopyToMapped { offset: 0, data });
        r.push(NativeCall::Unmap { resource: texture.resource, subresource });
    } else {
        let (w, h) = base_extent_exec(kind);
        let width = level_extent_exec(w, image.mipmap);
        let height = level_extent_exec(h, image.mipmap);
        assert(width as int * image.bits_per_texel as int <= 65535 * 255) by (nonlinear_arith)
            requires width <= 65535, image.bits_per_texel <= 255;
        let row_pitch = width as u32 * image.bits_per_texel as u32;
        let depth_pitch = height as u32 * row_pitch;
        let dst_box = UpdateBox {
            left: image.xoffset as u32,
            top: image.yoffset as u32,
            front: image.zoffset as u32,
            right: image.xoffset as u32 + image.width as u32,
            bottom: image.yoffset as u32 + image.height as u32,
            back: image.zoffset as u32 + image.depth as u32,
        };
        r.push(NativeCall::UpdateSubresource {
            resource: texture.resource,
            subresource,
            dst_box,
            data,
            row_pitch,
            depth_pitch,
        });
    }
    assert(r@ =~= texture_update_calls(*texture, kind, face, data, *image));
    r
}

/// Whether a buffer update has a defined strategy.
pub fn buffer_update_is_supported(buffer: &Buffer, data: DataPointer, offset_bytes: usize) -> (r: bool)
    ensures
        r == buffer_update_supported(*buffer, data, offset_bytes),
{
    match buffer.usage {
        Usage::Persistent(_) => false,
        Usage::GpuOnly => offset_bytes as u64 <= u32::MAX as u64 - data.size as u64,
        _ => true,
    }
}

/// Whether a texture update has a defined strategy.
pub fn texture_update_is_supported(texture: &Texture, kind: TextureKind, image: &RawImageInfo) -> (r: bool)
    ensures
        r == texture_update_supported(*texture, kind, *image),
{
    match texture.usage {
        Usage::Persistent(_) => false,
        Usage::GpuOnly => {
            let (w, h) = base_extent_exec(kind);
            let width = level_extent_exec(w, image.mipmap) as u64;
            let height = level_extent_exec(h, image.mipmap) as u64;
            assert(width * image.bits_per_texel <= 65535 * 255) by (nonlinear_arith)
                requires width <= 65535, image.bits_per_texel <= 255;
            assert(height * (width * image.bits_per_texel) <= 65535 * (65535 * 255)) by (nonlinear_arith)
                requires height <= 65535, width * image.bits_per_texel <= 65535 * 255;
            height * (width * image.bits_per_texel as u64) <= u32::MAX as u64
        },
        _ => true,
    }
}

/// What follows a discard map: nothing to report when the map succeeded
/// (the copy and the unmap go ahead); otherwise an error event naming the
/// resource and status, and the copy is skipped.
pub fn map_outcome(resource: u64, status: i32) -> (r: Option<Diagnostic>)
    ensures
        status >= 0 ==> r is None,
        status < 0 ==> r == Some(Diagnostic::MapFailed(resource, status)),
{
    if status >= 0 {
        None
    } else {
        Some(Diagnostic::MapFailed(resource, status))
    }
}

} // verus!
