use vstd::prelude::*;
use crate::command::{
    Command, DataBuffer, Diagnostic, NativeCall, Stage, MAX_COLOR_TARGETS, MAX_CONSTANT_BUFFERS,
    MAX_RESOURCE_VIEWS, MAX_SAMPLERS, MAX_VERTEX_ATTRIBUTES,
};
use crate::update::{
    buffer_update_calls, buffer_update_is_supported, buffer_update_supported, texture_update_calls,
    texture_update_is_supported, texture_update_supported, update_buffer, update_texture,
};

verus! {

/// The first `n` slots of `s`, with every slot past the end of `s` empty.
pub open spec fn padded<T>(s: Seq<T>, n: nat, empty: T) -> Seq<T> {
    Seq::new(n, |i: int| if i < s.len() { s[i] } else { empty })
}

/// Exactly `n` slots: those of `v` first, then `empty` ones.
pub fn pad_slots<T: Copy>(v: &Vec<T>, n: usize, empty: T) -> (r: Vec<T>)
    ensures
        r@ == padded(v@, n as nat, empty),
{
    let mut r: Vec<T> = Vec::new();
    let mut i: usize = 0;
    while i < n
        invariant
            i <= n,
            r@ == padded(v@, i as nat, empty),
        decreases n - i,
    {
        if i < v.len() {
            r.push(v[i]);
        } else {
            r.push(empty);
        }
        i = i + 1;
        assert(r@ =~= padded(v@, i as nat, empty));
    }
    r
}

/// The five shader stages in the order a program binds them.
pub open spec fn program_calls(vs: u64, hs: u64, ds: u64, gs: u64, ps: u64) -> Seq<NativeCall> {
    seq![
        NativeCall::SetShader { stage: Stage::Vertex, shader: vs },
        NativeCall::SetShader { stage: Stage::Hull, shader: hs },
        NativeCall::SetShader { stage: Stage::Domain, shader: ds },
        NativeCall::SetShader { stage: Stage::Geometry, shader: gs },
        NativeCall::SetShader { stage: Stage::Pixel, shader: ps },
    ]
}

/// `r` is the single call that rebinds every slot of a per-stage binding category.
pub open spec fn is_slot_bind(r: Seq<NativeCall>, command: Command) -> bool {
    r.len() == 1 && match (command, r[0]) {
        (Command::BindConstantBuffers(st, v), NativeCall::SetConstantBuffers { stage, count, buffers }) =>
            stage == st && count == MAX_CONSTANT_BUFFERS && buffers@ == padded(v@, MAX_CONSTANT_BUFFERS as nat, 0u64),
        (Command::BindShaderResources(st, v), NativeCall::SetShaderResources { stage, count, views }) =>
            stage == st && count == MAX_RESOURCE_VIEWS && views@ == padded(v@, MAX_RESOURCE_VIEWS as nat, 0u64),
        (Command::BindSamplers(st, v), NativeCall::SetSamplers { stage, count, samplers }) =>
            stage == st && count == MAX_SAMPLERS && samplers@ == padded(v@, MAX_SAMPLERS as nat, 0u64),
        (Command::BindVertexBuffers(b, s, o), NativeCall::SetVertexBuffers { count, buffers, strides, offsets }) =>
            count == MAX_VERTEX_ATTRIBUTES
            && buffers@ == padded(b@, MAX_VERTEX_ATTRIBUTES as nat, 0u64)
            && strides@ == padded(s@, MAX_VERTEX_ATTRIBUTES as nat, 0u32)
            && offsets@ == padded(o@, MAX_VERTEX_ATTRIBUTES as nat, 0u32),
        (Command::BindPixelTargets(c, d), NativeCall::SetRenderTargets { count, colors, depth }) =>
            count == MAX_COLOR_TARGETS && colors@ == padded(c@, MAX_COLOR_TARGETS as nat, 0u64) && depth == d,
        _ => false,
    }
}

/// The native calls that replaying `command` makes, in order.
pub open spec fn command_calls(command: Command, data_buf: DataBuffer, r: Seq<NativeCall>) -> bool {
    match command {
        Command::BindProgram(p) => r == program_calls(p.vs, p.hs, p.ds, p.gs, p.ps),
        Command::BindInputLayout(l) => r == seq![NativeCall::SetInputLayout { layout: l }],
        Command::BindIndex(b, f) => r == seq![NativeCall::SetIndexBuffer { buffer: b, format: f }],
        Command::BindVertexBuffers(..) => is_slot_bind(r, command),
        Command::BindConstantBuffers(..) => is_slot_bind(r, command),
        Command::BindShaderResources(..) => is_slot_bind(r, command),
        Command::BindSamplers(..) => is_slot_bind(r, command),
        Command::BindPixelTargets(..) => is_slot_bind(r, command),
        Command::SetPrimitive(t) => r == seq![NativeCall::SetPrimitiveTopology { topology: t }],
        Command::SetViewport(v) => r == seq![NativeCall::SetViewport { viewport: v }],
        Command::SetScissor(s) => r == seq![NativeCall::SetScissorRect { rect: s }],
        Command::SetRasterizer(s) => r == seq![NativeCall::SetRasterizerState { state: s }],
        Command::SetDepthStencil(s, v) => r == seq![NativeCall::SetDepthStencilState { state: s, stencil_ref: v }],
        Command::SetBlend(s, f, m) => r == seq![NativeCall::SetBlendState { state: s, factor: f, sample_mask: m }],
        Command::UpdateBuffer(b, p, o) => if data_buf.holds(p) {
            r == buffer_update_calls(b, p, o)
        } else {
            r == seq![NativeCall::ReportError { diagnostic: Diagnostic::DataOutOfRange(p) }]
        },
        Command::UpdateTexture(t, k, f, p, i) => if data_buf.holds(p) {
            r == texture_update_calls(t, k, f, p, i)
        } else {
            r == seq![NativeCall::ReportError { diagnostic: Diagnostic::DataOutOfRange(p) }]
        },
        Command::GenerateMips(v) => r == seq![NativeCall::GenerateMips { view: v }],
        Command::ClearColor(v, c) => r == seq![NativeCall::ClearRenderTarget { view: v, color: c }],
        Command::ClearDepthStencil(v, f, d, s) =>
            r == seq![NativeCall::ClearDepthStencil { view: v, flags: f, depth: d, stencil: s }],
        Command::Draw(n, s) => r == seq![NativeCall::Draw { vertex_count: n, start_vertex: s }],
        Command::DrawInstanced(n, i, s, si) => r == seq![NativeCall::DrawInstanced {
            vertex_count: n,
            instance_count: i,
            start_vertex: s,
            start_instance: si,
        }],
        Command::DrawIndexed(n, s, b) => r == seq![NativeCall::DrawIndexed {
            index_count: n,
            start_index: s,
            base_vertex: b,
        }],
        Command::DrawIndexedInstanced(n, i, s, b, si) => r == seq![NativeCall::DrawIndexedInstanced {
            index_count: n,
            instance_count: i,
            start_index: s,
            base_vertex: b,
            start_instance: si,
        }],
    }
}

/// Commands whose replay is defined: the updates they carry have a strategy.
pub open spec fn command_supported(command: Command) -> bool {
    match command {
        Command::UpdateBuffer(b, p, o) => buffer_update_supported(b, p, o),
        Command::UpdateTexture(t, k, _, _, i) => texture_update_supported(t, k, i),
        _ => true,
    }
}

fn one(c: NativeCall) -> (r: Vec<NativeCall>)
    ensures
        r@ == seq![c],
{
    let mut r: Vec<NativeCall> = Vec::new();
    r.push(c);
    assert(r@ =~= seq![c]);
    r
}

/// Turns one recorded command into the native calls that apply it to
/// the immediate context. Update payloads are resolved in `data_buf`; a
/// payload outside it is reported as an error event and nothing is written.
pub fn process(command: &Command, data_buf: &DataBuffer) -> (r: Vec<NativeCall>)
    requires
        command_supported(*command),
    ensures
        command_calls(*command, *data_buf, r@),
{
    match command {
        Command::BindProgram(p) => {
            let mut r: Vec<NativeCall> = Vec::new();
            r.push(NativeCall::SetShader { stage: Stage::Vertex, shader: p.vs });
            r.push(NativeCall::SetShader { stage: Stage::Hull, shader: p.hs });
            r.push(NativeCall::SetShader { stage: Stage::Domain, shader: p.ds });
            r.push(NativeCall::SetShader { stage: Stage::Geometry, shader: p.gs });
            r.push(NativeCall::SetShader { stage: Stage::Pixel, shader: p.ps });
            assert(r@ =~= program_calls(p.vs, p.hs, p.ds, p.gs, p.ps));
            r
        },
        Command::BindInputLayout(l) => one(NativeCall::SetInputLayout { layout: *l }),
        Command::BindIndex(b, f) => one(NativeCall::SetIndexBuffer { buffer: *b, format: *f }),
        Command::BindVertexBuffers(b, s, o) => one(NativeCall::SetVertexBuffers {
            count: MAX_VERTEX_ATTRIBUTES,
            buffers: pad_slots(b, MAX_VERTEX_ATTRIBUTES, 0u64),
            strides: pad_slots(s, MAX_VERTEX_ATTRIBUTES, 0u32),
            offsets: pad_slots(o, MAX_VERTEX_ATTRIBUTES, 0u32),
        }),
        Command::BindConstantBuffers(stage, v) => one(NativeCall::SetConstantBuffers {
            stage: *stage,
            count: MAX_CONSTANT_BUFFERS,
            buffers: pad_slots(v, MAX_CONSTANT_BUFFERS, 0u64),
        }),
        Command::BindShaderResources(stage, v) => one(NativeCall::SetShaderResources {
            stage: *stage,
            count: MAX_RESOURCE_VIEWS,
            views: pad_slots(v, MAX_RESOURCE_VIEWS, 0u64),
        }),
        Command::BindSamplers(stage, v) => one(NativeCall::SetSamplers {
            stage: *stage,
            count: MAX_SAMPLERS,
            samplers: pad_slots(v, MAX_SAMPLERS, 0u64),
        }),
        Command::BindPixelTargets(c, d) => one(NativeCall::SetRenderTargets {
            count: MAX_COLOR_TARGETS,
            colors: pad_slots(c, MAX_COLOR_TARGETS, 0u64),
            depth: *d,
        }),
        Command::SetPrimitive(t) => one(NativeCall::SetPrimitiveTopology { topology: *t }),
        Command::SetViewport(v) => one(NativeCall::SetViewport { viewport: *v }),
        Command::SetScissor(s) => one(NativeCall::SetScissorRect { rect: *s }),
        Command::SetRasterizer(s) => one(NativeCall::SetRasterizerState { state: *s }),
        Command::SetDepthStencil(s, v) => one(NativeCall::SetDepthStencilState { state: *s, stencil_ref: *v }),
        Command::SetBlend(s, f, m) => one(NativeCall::SetBlendState { state: *s, factor: *f, sample_mask: *m }),
        Command::UpdateBuffer(b, p, o) => match data_buf.get(*p) {
            Some(_) => update_buffer(b, *p, *o),
            None => one(NativeCall::ReportError { diagnostic: Diagnostic::DataOutOfRange(*p) }),
        },
        Command::UpdateTexture(t, k, f, p, i) => match data_buf.get(*p) {
            Some(_) => update_texture(t, *k, *f, *p, i),
            None => one(NativeCall::ReportError { diagnostic: Diagnostic::DataOutOfRange(*p) }),
        },
        Command::GenerateMips(v) => one(NativeCall::GenerateMips { view: *v }),
        Command::ClearColor(v, c) => one(NativeCall::ClearRenderTarget { view: *v, color: *c }),
        Command::ClearDepthStencil(v, f, d, s) => one(NativeCall::ClearDepthStencil {
            view: *v,
            flags: *f,
            depth: *d,
            stencil: *s,
        }),
        Command::Draw(n, s) => one(NativeCall::Draw { vertex_count: *n, start_vertex: *s }),
        Command::DrawInstanced(n, i, s, si) => one(NativeCall::DrawInstanced {
            vertex_count: *n,
            instance_count: *i,
            start_vertex: *s,
            start_instance: *si,
        }),
        Command::DrawIndexed(n, s, b) => one(NativeCall::DrawIndexed {
            index_count: *n,
            start_index: *s,
            base_vertex: *b,
        }),
        Command::DrawIndexedInstanced(n, i, s, b, si) => one(NativeCall::DrawIndexedInstanced {
            index_count: *n,
            instance_count: *i,
            start_index: *s,
            base_vertex: *b,
            start_instance: *si,
        }),
    }
}

/// Whether replaying `command` is defined.
pub fn is_command_supported(command: &Command) -> (r: bool)
    ensures
        r == command_supported(*command),
{
    match command {
        Command::UpdateBuffer(b, p, o) => buffer_update_is_supported(b, *p, *o),
        Command::UpdateTexture(t, k, _, _, i) => texture_update_is_supported(t, *k, i),
        _ => true,
    }
}

} // verus!
