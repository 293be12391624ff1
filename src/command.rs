use vstd::prelude::*;
use crate::memory::Usage;

verus! {

/// Per-stage slot counts that every bind call of the immediate context covers.
pub const MAX_VERTEX_ATTRIBUTES: usize = 16;
pub const MAX_COLOR_TARGETS: usize = 4;
pub const MAX_CONSTANT_BUFFERS: usize = 14;
pub const MAX_RESOURCE_VIEWS: usize = 32;
pub const MAX_SAMPLERS: usize = 16;

/// A programmable shader stage of the immediate-context pipeline.
#[derive(Clone, Copy, Debug, PartialEq, Eq, Structural)]
pub enum Stage {
    Vertex,
    Hull,
    Domain,
    Geometry,
    Pixel,
}

/// Native shader objects of a program; 0 stands for an absent stage.
#[derive(Clone, Copy, Debug, PartialEq, Eq, Structural)]
pub struct Program {
    pub vs: u64,
    pub hs: u64,
    pub ds: u64,
    pub gs: u64,
    pub ps: u64,
}

/// A native buffer together with its usage.
#[derive(Clone, Copy, Debug, PartialEq, Eq, Structural)]
pub struct Buffer {
    pub resource: u64,
    pub usage: Usage,
}

/// A native texture together with its usage.
#[derive(Clone, Copy, Debug, PartialEq, Eq, Structural)]
pub struct Texture {
    pub resource: u64,
    pub usage: Usage,
}

/// Multi-sampling mode of a two-dimensional image.
#[derive(Clone, Copy, Debug, PartialEq, Eq, Structural)]
pub enum AaMode {
    Single,
    Multi(u8),
    Coverage(u8, u8),
}

/// Shape and extent of a texture.
#[derive(Clone, Copy, Debug, PartialEq, Eq, Structural)]
pub enum TextureKind {
    D1(u16),
    D1Array(u16, u16),
    D2(u16, u16, AaMode),
    D2Array(u16, u16, u16, AaMode),
    D3(u16, u16, u16),
    Cube(u16),
    CubeArray(u16, u16),
}

/// A face of a cube texture.
#[derive(Clone, Copy, Debug, PartialEq, Eq, Structural)]
pub enum CubeFace {
    PosX,
    NegX,
    PosY,
    NegY,
    PosZ,
    NegZ,
}

/// The region of a texture that an update writes, with the size of one texel.
#[derive(Clone, Copy, Debug, PartialEq, Eq, Structural)]
pub struct RawImageInfo {
    pub xoffset: u16,
    pub yoffset: u16,
    pub zoffset: u16,
    pub width: u16,
    pub height: u16,
    pub depth: u16,
    pub bits_per_texel: u8,
    pub mipmap: u8,
}

/// Four 32-bit values handed through unchanged (a colour or blend factor, as bits).
#[derive(Clone, Copy, Debug, PartialEq, Eq, Structural)]
pub struct Bits4 {
    pub x: u32,
    pub y: u32,
    pub z: u32,
    pub w: u32,
}

/// A viewport, each value given as the bits of its native representation.
#[derive(Clone, Copy, Debug, PartialEq, Eq, Structural)]
pub struct Viewport {
    pub top_left_x: u32,
    pub top_left_y: u32,
    pub width: u32,
    pub height: u32,
    pub min_depth: u32,
    pub max_depth: u32,
}

/// A scissor rectangle.
#[derive(Clone, Copy, Debug, PartialEq, Eq, Structural)]
pub struct Rect {
    pub left: i32,
    pub top: i32,
    pub right: i32,
    pub bottom: i32,
}

/// A range of bytes in a `DataBuffer`.
#[derive(Clone, Copy, Debug, PartialEq, Eq, Structural)]
pub struct DataPointer {
    pub offset: u32,
    pub size: u32,
}

/// Append-only store of the raw bytes that update commands refer to.
#[derive(Clone, Debug)]
pub struct DataBuffer {
    pub buf: Vec<u8>,
}

impl DataBuffer {
    pub open spec fn holds(&self, p: DataPointer) -> bool {
        p.offset + p.size <= self.buf@.len()
    }

    /// An empty store.
    pub fn new() -> (r: DataBuffer)
        ensures
            r.buf@.len() == 0,
    {
        DataBuffer { buf: Vec::new() }
    }

    /// Appends `data` and returns the pointer that addresses it.
    pub fn add(&mut self, data: &[u8]) -> (r: DataPointer)
        requires
            old(self).buf@.len() + data@.len() <= u32::MAX,
        ensures
            final(self).buf@ == old(self).buf@ + data@,
            r.offset == old(self).buf@.len(),
            r.size == data@.len(),
            final(self).holds(r),
    {
        let offset = self.buf.len() as u32;
        let mut i: usize = 0;
        while i < data.len()
            invariant
                i <= data@.len(),
                self.buf@ == old(self).buf@ + data@.subrange(0, i as int),
            decreases data@.len() - i,
        {
            self.buf.push(data[i]);
            i = i + 1;
            assert(data@.subrange(0, i as int) == data@.subrange(0, i - 1 as int).push(data@[i - 1]));
        }
        assert(data@.subrange(0, data@.len() as int) == data@);
        DataPointer { offset, size: data.len() as u32 }
    }

    /// The bytes that `p` addresses.
    pub fn get(&self, p: DataPointer) -> (r: Option<&[u8]>)
        ensures
            r is Some <==> self.holds(p),
            r is Some ==> r->0@ == self.buf@.subrange(p.offset as int, p.offset + p.size),
    {
        if p.offset as usize > self.buf.len() || p.size as usize > self.buf.len() - p.offset as usize {
            None
        } else {
            let s = self.buf.as_slice();
            Some(vstd::slice::slice_subrange(s, p.offset as usize, p.offset as usize + p.size as usize))
        }
    }
}

/// One element of a recorded command stream.
#[derive(Clone, Debug)]
pub enum Command {
    BindProgram(Program),
    BindInputLayout(u64),
    BindIndex(u64, u32),
    BindVertexBuffers(Vec<u64>, Vec<u32>, Vec<u32>),
    BindConstantBuffers(Stage, Vec<u64>),
    BindShaderResources(Stage, Vec<u64>),
    BindSamplers(Stage, Vec<u64>),
    BindPixelTargets(Vec<u64>, u64),
    SetPrimitive(u32),
    SetViewport(Viewport),
    SetScissor(Rect),
    SetRasterizer(u64),
    SetDepthStencil(u64, u32),
    SetBlend(u64, Bits4, u32),
    UpdateBuffer(Buffer, DataPointer, usize),
    UpdateTexture(Texture, TextureKind, Option<CubeFace>, DataPointer, RawImageInfo),
    GenerateMips(u64),
    ClearColor(u64, Bits4),
    ClearDepthStencil(u64, u32, u32, u8),
    Draw(u32, u32),
    DrawInstanced(u32, u32, u32, u32),
    DrawIndexed(u32, u32, i32),
    DrawIndexedInstanced(u32, u32, u32, i32, u32),
}

/// What an error event reports.
#[derive(Clone, Copy, Debug, PartialEq, Eq, Structural)]
pub enum Diagnostic {
    ImmutableBuffer(u64),
    ImmutableTexture(u64),
    DataOutOfRange(DataPointer),
    /// A discard map of this resource failed with this status.
    MapFailed(u64, i32),
}

/// An axis-aligned region of a resource: texels of a texture, bytes of a buffer.
#[derive(Clone, Copy, Debug, PartialEq, Eq, Structural)]
pub struct UpdateBox {
    pub left: u32,
    pub top: u32,
    pub front: u32,
    pub right: u32,
    pub bottom: u32,
    pub back: u32,
}

/// One call on the native immediate context, in the order it is to be made.
#[derive(Clone, Debug)]
pub enum NativeCall {
    SetShader { stage: Stage, shader: u64 },
    SetInputLayout { layout: u64 },
    SetIndexBuffer { buffer: u64, format: u32 },
    SetVertexBuffers { count: usize, buffers: Vec<u64>, strides: Vec<u32>, offsets: Vec<u32> },
    SetConstantBuffers { stage: Stage, count: usize, buffers: Vec<u64> },
    SetShaderResources { stage: Stage, count: usize, views: Vec<u64> },
    SetSamplers { stage: Stage, count: usize, samplers: Vec<u64> },
    SetRenderTargets { count: usize, colors: Vec<u64>, depth: u64 },
    SetPrimitiveTopology { topology: u32 },
    SetViewport { viewport: Viewport },
    SetScissorRect { rect: Rect },
    SetRasterizerState { state: u64 },
    SetDepthStencilState { state: u64, stencil_ref: u32 },
    SetBlendState { state: u64, factor: Bits4, sample_mask: u32 },
    /// Driver-mediated copy of `data` into the region `dst_box` of a subresource.
    UpdateSubresource { resource: u64, subresource: u32, dst_box: UpdateBox, data: DataPointer, row_pitch: u32, depth_pitch: u32 },
    /// Maps a subresource with discard semantics.
    MapWriteDiscard { resource: u64, subresource: u32 },
    /// Copies `data` into the mapped memory, starting `offset` bytes in.
    CopyToMapped { offset: usize, data: DataPointer },
    Unmap { resource: u64, subresource: u32 },
    GenerateMips { view: u64 },
    ClearRenderTarget { view: u64, color: Bits4 },
    ClearDepthStencil { view: u64, flags: u32, depth: u32, stencil: u8 },
    Draw { vertex_count: u32, start_vertex: u32 },
    DrawInstanced { vertex_count: u32, instance_count: u32, start_vertex: u32, start_instance: u32 },
    DrawIndexed { index_count: u32, start_index: u32, base_vertex: i32 },
    DrawIndexedInstanced { index_count: u32, instance_count: u32, start_index: u32, base_vertex: i32, start_instance: u32 },
    /// An error event; nothing is written.
    ReportError { diagnostic: Diagnostic },
}

} // verus!
