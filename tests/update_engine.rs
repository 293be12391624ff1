use gfx_backend::command::{
    AaMode, Buffer, CubeFace, DataPointer, Diagnostic, NativeCall, RawImageInfo, Texture, TextureKind,
};
use gfx_backend::memory::{Access, Usage};
use gfx_backend::update::{
    buffer_update_is_supported, map_outcome, texture_update_is_supported, update_buffer, update_texture,
};

fn image(mipmap: u8) -> RawImageInfo {
    RawImageInfo {
        xoffset: 4,
        yoffset: 8,
        zoffset: 0,
        width: 16,
        height: 2,
        depth: 1,
        bits_per_texel: 32,
        mipmap,
    }
}

#[test]
fn immutable_buffer_update_is_rejected() {
    let buffer = Buffer { resource: 7, usage: Usage::Immutable };
    let calls = update_buffer(&buffer, DataPointer { offset: 0, size: 4 }, 0);
    assert_eq!(calls.len(), 1);
    assert!(matches!(calls[0], NativeCall::ReportError { diagnostic: Diagnostic::ImmutableBuffer(7) }));
}

#[test]
fn cpu_read_buffer_update_is_rejected() {
    let usage = Usage::CpuOnly(Access { read: true, write: false });
    let buffer = Buffer { resource: 3, usage };
    let calls = update_buffer(&buffer, DataPointer { offset: 0, size: 4 }, 12);
    assert_eq!(calls.len(), 1);
    assert!(matches!(calls[0], NativeCall::ReportError { .. }));
}

#[test]
fn gpu_only_buffer_update_copies_byte_range() {
    let buffer = Buffer { resource: 9, usage: Usage::GpuOnly };
    let data = DataPointer { offset: 2, size: 10 };
    let calls = update_buffer(&buffer, data, 100);
    assert_eq!(calls.len(), 1);
    match calls[0] {
        NativeCall::UpdateSubresource { resource, subresource, dst_box, data: d, row_pitch, depth_pitch } => {
            assert_eq!(resource, 9);
            assert_eq!(subresource, 0);
            assert_eq!((dst_box.left, dst_box.right), (100, 110));
            assert_eq!((dst_box.top, dst_box.bottom, dst_box.front, dst_box.back), (0, 1, 0, 1));
            assert_eq!(d, data);
            assert_eq!((row_pitch, depth_pitch), (0, 0));
        },
        ref other => panic!("unexpected call {:?}", other),
    }
}

#[test]
fn dynamic_buffer_update_maps_copies_and_unmaps() {
    let usage = Usage::CpuOnly(Access { read: true, write: true });
    for usage in [Usage::Dynamic, usage] {
        let buffer = Buffer { resource: 5, usage };
        let data = DataPointer { offset: 0, size: 8 };
        let calls = update_buffer(&buffer, data, 24);
        assert_eq!(calls.len(), 3);
        assert!(matches!(calls[0], NativeCall::MapWriteDiscard { resource: 5, subresource: 0 }));
        match calls[1] {
            NativeCall::CopyToMapped { offset, data: d } => {
                assert_eq!(offset, 24);
                assert_eq!(d, data);
            },
            ref other => panic!("unexpected call {:?}", other),
        }
        assert!(matches!(calls[2], NativeCall::Unmap { resource: 5, subresource: 0 }));
    }
}

#[test]
fn immutable_texture_update_is_rejected() {
    for usage in [Usage::Immutable, Usage::CpuOnly(Access { read: true, write: false })] {
        let texture = Texture { resource: 11, usage };
        let calls = update_texture(
            &texture,
            TextureKind::D2(64, 64, AaMode::Single),
            None,
            DataPointer { offset: 0, size: 16 },
            &image(0),
        );
        assert_eq!(calls.len(), 1);
        assert!(matches!(calls[0], NativeCall::ReportError { diagnostic: Diagnostic::ImmutableTexture(11) }));
    }
}

#[test]
fn gpu_only_texture_update_pitches_and_box() {
    let texture = Texture { resource: 1, usage: Usage::GpuOnly };
    let calls = update_texture(
        &texture,
        TextureKind::D2(256, 128, AaMode::Single),
        None,
        DataPointer { offset: 0, size: 64 },
        &image(1),
    );
    assert_eq!(calls.len(), 1);
    match calls[0] {
        NativeCall::UpdateSubresource { subresource, dst_box, row_pitch, depth_pitch, .. } => {
            assert_eq!(subresource, 1);
            assert_eq!(row_pitch, 128 * 32);
            assert_eq!(depth_pitch, 64 * 128 * 32);
            assert_eq!((dst_box.left, dst_box.top, dst_box.front), (4, 8, 0));
            assert_eq!((dst_box.right, dst_box.bottom, dst_box.back), (20, 10, 1));
        },
        ref other => panic!("unexpected call {:?}", other),
    }
}

#[test]
fn cube_face_selects_array_slice() {
    let texture = Texture { resource: 1, usage: Usage::GpuOnly };
    let faces = [
        (CubeFace::PosX, 0),
        (CubeFace::NegX, 1),
        (CubeFace::PosY, 2),
        (CubeFace::NegY, 3),
        (CubeFace::PosZ, 4),
        (CubeFace::NegZ, 5),
    ];
    for (face, slice) in faces {
        let calls = update_texture(
            &texture,
            TextureKind::Cube(32),
            Some(face),
            DataPointer { offset: 0, size: 4 },
            &image(2),
        );
        match calls[0] {
            NativeCall::UpdateSubresource { subresource, row_pitch, .. } => {
                assert_eq!(subresource, slice + 2);
                assert_eq!(row_pitch, 8 * 32);
            },
            ref other => panic!("unexpected call {:?}", other),
        }
    }
}

#[test]
fn level_extent_never_drops_below_one() {
    let texture = Texture { resource: 1, usage: Usage::GpuOnly };
    let calls = update_texture(
        &texture,
        TextureKind::D2(4, 2, AaMode::Single),
        None,
        DataPointer { offset: 0, size: 4 },
        &image(5),
    );
    match calls[0] {
        NativeCall::UpdateSubresource { row_pitch, depth_pitch, .. } => {
            assert_eq!(row_pitch, 32);
            assert_eq!(depth_pitch, 32);
        },
        ref other => panic!("unexpected call {:?}", other),
    }
}

#[test]
fn dynamic_texture_update_maps_subresource() {
    let writable = Usage::CpuOnly(Access { read: false, write: true });
    for usage in [Usage::Dynamic, writable] {
        let texture = Texture { resource: 8, usage };
        let data = DataPointer { offset: 4, size: 16 };
        let calls = update_texture(&texture, TextureKind::Cube(16), Some(CubeFace::PosY), data, &image(1));
        assert_eq!(calls.len(), 3);
        assert!(matches!(calls[0], NativeCall::MapWriteDiscard { resource: 8, subresource: 3 }));
        match calls[1] {
            NativeCall::CopyToMapped { offset, data: d } => {
                assert_eq!(offset, 0);
                assert_eq!(d, data);
            },
            ref other => panic!("unexpected call {:?}", other),
        }
        assert!(matches!(calls[2], NativeCall::Unmap { resource: 8, subresource: 3 }));
    }
}

#[test]
fn update_support_checks() {
    let persistent = Usage::Persistent(Access { read: false, write: true });
    let data = DataPointer { offset: 0, size: 10 };
    assert!(!buffer_update_is_supported(&Buffer { resource: 1, usage: persistent }, data, 0));
    assert!(buffer_update_is_supported(&Buffer { resource: 1, usage: Usage::GpuOnly }, data, 100));
    assert!(!buffer_update_is_supported(&Buffer { resource: 1, usage: Usage::GpuOnly }, data, u32::MAX as usize));
    assert!(buffer_update_is_supported(&Buffer { resource: 1, usage: Usage::Dynamic }, data, u32::MAX as usize));
    let kind = TextureKind::D2(64, 64, AaMode::Single);
    assert!(!texture_update_is_supported(&Texture { resource: 1, usage: persistent }, kind, &image(0)));
    assert!(texture_update_is_supported(&Texture { resource: 1, usage: Usage::Dynamic }, kind, &image(0)));
    assert!(texture_update_is_supported(&Texture { resource: 1, usage: Usage::GpuOnly }, kind, &image(0)));
    let big = TextureKind::D2(65535, 65535, AaMode::Single);
    assert!(!texture_update_is_supported(&Texture { resource: 1, usage: Usage::GpuOnly }, big, &image(0)));
}

#[test]
fn failed_map_is_reported() {
    assert_eq!(map_outcome(4, 0), None);
    assert_eq!(map_outcome(4, -5), Some(Diagnostic::MapFailed(4, -5)));
}
