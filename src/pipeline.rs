use vstd::prelude::*;
use crate::device::{Device, Format, FORMAT_UNKNOWN};

verus! {

/// Most render targets a pipeline writes.
pub const MAX_RENDER_TARGETS: usize = 8;
/// Native marker for a descriptor range that follows the previous one.
pub const DESCRIPTOR_RANGE_OFFSET_APPEND: u32 = 4294967295;

/// A shader stage of the explicit back end's pipelines.
#[derive(Clone, Copy, Debug, PartialEq, Eq, Structural)]
pub enum ShaderStage {
    Vertex,
    Hull,
    Domain,
    Geometry,
    Pixel,
    Compute,
}

/// Why a shader library could not be made.
#[derive(Clone, Debug)]
pub enum CreateShaderError {
    CompilationFailed(String),
}

/// Compiled byte code blobs by entry point; on a repeated name the first wins.
#[derive(Clone, Debug)]
pub struct ShaderLib {
    pub shaders: Vec<(String, u64)>,
}

/// The first blob whose entry point is `name`, from position `i` on.
pub open spec fn first_blob(shaders: Seq<(String, u64)>, name: Seq<char>, i: int) -> Option<u64>
    decreases shaders.len() - i,
{
    if i < 0 || i >= shaders.len() {
        None
    } else if shaders[i].0@ == name {
        Some(shaders[i].1)
    } else {
        first_blob(shaders, name, i + 1)
    }
}

impl ShaderLib {
    /// The blob of entry point `name`: the first one so named.
    pub fn lookup(&self, name: &String) -> (r: Option<u64>)
        ensures
            r == first_blob(self.shaders@, name@, 0),
    {
        let mut i: usize = 0;
        while i < self.shaders.len()
            invariant
                i <= self.shaders@.len(),
                first_blob(self.shaders@, name@, 0) == first_blob(self.shaders@, name@, i as int),
            decreases self.shaders@.len() - i,
        {
            if self.shaders[i].0 == *name {
                return Some(self.shaders[i].1);
            }
            i = i + 1;
        }
        None
    }
}

/// The error of the first failed entry of `results` from position `i` on.
pub open spec fn first_failure<E>(results: Seq<(String, Result<u64, E>)>, i: int) -> Option<E>
    decreases results.len() - i,
{
    if i < 0 || i >= results.len() {
        None
    } else if results[i].1 is Err {
        Some(results[i].1->Err_0)
    } else {
        first_failure(results, i + 1)
    }
}

/// Blob ids of a list of per-entry results that all succeeded.
pub open spec fn blobs_of<E>(results: Seq<(String, Result<u64, E>)>) -> Seq<(Seq<char>, u64)> {
    Seq::new(results.len(), |i: int| (results[i].0@, results[i].1->Ok_0))
}

fn collect_blobs(results: &Vec<(String, Result<u64, String>)>) -> (r: Result<ShaderLib, CreateShaderError>)
    ensures
        first_failure(results@, 0) is None ==> r is Ok
            && r->Ok_0.shaders@.len() == results@.len()
            && forall|i: int| 0 <= i < results@.len() ==>
                (#[trigger] r->Ok_0.shaders@[i]).0@ == results@[i].0@ && r->Ok_0.shaders@[i].1 == results@[i].1->Ok_0,
        first_failure(results@, 0) matches Some(e) ==> r matches Err(CreateShaderError::CompilationFailed(m)) && m@ == e@,
{
    let mut shaders: Vec<(String, u64)> = Vec::new();
    let mut i: usize = 0;
    while i < results.len()
        invariant
            i <= results@.len(),
            first_failure(results@, 0) == first_failure(results@, i as int),
            shaders@.len() == i,
            forall|k: int| 0 <= k < i ==>
                (#[trigger] shaders@[k]).0@ == results@[k].0@ && shaders@[k].1 == results@[k].1->Ok_0,
        decreases results@.len() - i,
    {
        match &results[i].1 {
            Ok(blob) => {
                shaders.push((results[i].0.clone(), *blob));
            },
            Err(message) => {
                return Err(CreateShaderError::CompilationFailed(message.clone()));
            },
        }
        i = i + 1;
    }
    Ok(ShaderLib { shaders })
}

/// The compile target of a stage that can be compiled from source.
pub fn shader_target(stage: ShaderStage) -> (r: &'static str)
    requires
        stage is Vertex || stage is Pixel,
    ensures
        stage is Vertex ==> r@ == "vs_5_0"@,
        stage is Pixel ==> r@ == "ps_5_0"@,
{
    match stage {
        ShaderStage::Vertex => {
            proof { reveal_strlit("vs_5_0"); }
            "vs_5_0"
        },
        _ => {
            proof { reveal_strlit("ps_5_0"); }
            "ps_5_0"
        },
    }
}

/// The kind of resource a descriptor binding refers to.
#[derive(Clone, Copy, Debug, PartialEq, Eq, Structural)]
pub enum DescriptorType {
    Sampler,
    SampledImage,
    StorageImage,
    UniformTexelBuffer,
    StorageTexelBuffer,
    ConstantBuffer,
    StorageBuffer,
    InputAttachment,
}

/// One binding of a descriptor set layout.
#[derive(Clone, Copy, Debug, PartialEq, Eq, Structural)]
pub struct DescriptorSetLayoutBinding {
    pub binding: usize,
    pub ty: DescriptorType,
    pub count: usize,
}

/// The bindings of a descriptor set, in order.
#[derive(Clone, Debug)]
pub struct DescriptorSetLayout {
    pub bindings: Vec<DescriptorSetLayoutBinding>,
}

/// Native kind of a descriptor range.
#[derive(Clone, Copy, Debug, PartialEq, Eq, Structural)]
pub enum RangeType {
    Sampler,
    Srv,
    Uav,
    Cbv,
}

/// A native descriptor range of a root-signature table.
#[derive(Clone, Copy, Debug, PartialEq, Eq, Structural)]
pub struct DescriptorRange {
    pub range_type: RangeType,
    pub num_descriptors: u32,
    pub base_shader_register: u32,
    pub register_space: u32,
    pub offset_from_table_start: u32,
}

/// A descriptor-table root parameter: `count` ranges from `range_base` on.
#[derive(Clone, Copy, Debug, PartialEq, Eq, Structural)]
pub struct RootParameter {
    pub range_base: usize,
    pub count: usize,
}

/// A root signature to serialise: all ranges in one array, one table per set.
#[derive(Clone, Debug)]
pub struct RootSignatureDesc {
    pub ranges: Vec<DescriptorRange>,
    pub parameters: Vec<RootParameter>,
}

/// Binding kinds that a root signature can express.
pub open spec fn binding_supported(b: DescriptorSetLayoutBinding) -> bool {
    &&& !(b.ty is UniformTexelBuffer || b.ty is StorageTexelBuffer || b.ty is InputAttachment)
    &&& b.count <= u32::MAX
    &&& b.binding <= u32::MAX
}

/// Native kind of the range for a binding of type `ty`.
pub open spec fn range_type(ty: DescriptorType) -> RangeType {
    match ty {
        DescriptorType::Sampler => RangeType::Sampler,
        DescriptorType::SampledImage => RangeType::Srv,
        DescriptorType::ConstantBuffer => RangeType::Cbv,
        _ => RangeType::Uav,
    }
}

/// The range for binding `b` that stands at position `index` of the flat array.
pub open spec fn binding_range(b: DescriptorSetLayoutBinding, index: int) -> DescriptorRange {
    DescriptorRange {
        range_type: range_type(b.ty),
        num_descriptors: b.count as u32,
        base_shader_register: b.binding as u32,
        register_space: 0,
        offset_from_table_start: if index == 0 { 0 } else { DESCRIPTOR_RANGE_OFFSET_APPEND },
    }
}

/// All bindings of all sets, flattened in set order and binding order.
pub open spec fn flat_bindings(sets: Seq<Seq<DescriptorSetLayoutBinding>>) -> Seq<DescriptorSetLayoutBinding>
    decreases sets.len(),
{
    if sets.len() == 0 {
        Seq::empty()
    } else {
        flat_bindings(sets.drop_last()) + sets.last()
    }
}

/// The bindings of each set of `sets`.
pub open spec fn set_bindings(sets: Seq<DescriptorSetLayout>) -> Seq<Seq<DescriptorSetLayoutBinding>> {
    Seq::new(sets.len(), |i: int| sets[i].bindings@)
}

fn map_range_type(ty: DescriptorType) -> (r: RangeType)
    requires
        !(ty is UniformTexelBuffer || ty is StorageTexelBuffer || ty is InputAttachment),
    ensures
        r == range_type(ty),
{
    match ty {
        DescriptorType::Sampler => RangeType::Sampler,
        DescriptorType::SampledImage => RangeType::Srv,
        DescriptorType::ConstantBuffer => RangeType::Cbv,
        _ => RangeType::Uav,
    }
}

/// Why a pipeline could not be created.
#[derive(Clone, Copy, Debug, PartialEq, Eq, Structural)]
pub enum CreationError {
    /// No vertex buffer description at this binding.
    MissingBinding(u32),
    /// No input element of the vertex shader at this location.
    MissingLocation(u32),
    /// The subpass index is past the render pass's subpasses.
    InvalidSubpass(usize),
    Other,
}

/// Entry points of the stages of a pipeline; absent optional stages are disabled.
#[derive(Clone, Debug)]
pub struct ShaderEntries {
    pub vertex_shader: String,
    pub hull_shader: Option<String>,
    pub domain_shader: Option<String>,
    pub geometry_shader: Option<String>,
    pub pixel_shader: Option<String>,
}

/// A vertex attribute: shader location, buffer binding, format and offset.
#[derive(Clone, Copy, Debug, PartialEq, Eq, Structural)]
pub struct AttributeDesc {
    pub location: u32,
    pub binding: u32,
    pub format: Format,
    pub offset: u32,
}

/// A vertex buffer description; a non-zero rate steps per instance.
#[derive(Clone, Copy, Debug, PartialEq, Eq, Structural)]
pub struct VertexBufferDesc {
    pub stride: u32,
    pub rate: u8,
}

/// An input the vertex shader declares, as reflection reports it.
#[derive(Clone, Copy, Debug, PartialEq, Eq, Structural)]
pub struct ReflectedInput {
    pub semantic_name: u64,
    pub semantic_index: u32,
}

/// The parts of a graphics pipeline description that the builder reads.
#[derive(Clone, Debug)]
pub struct GraphicsPipelineDesc {
    pub shader_entries: ShaderEntries,
    pub attributes: Vec<AttributeDesc>,
    pub vertex_buffers: Vec<VertexBufferDesc>,
    pub depth_format: Option<Format>,
    pub primitive: u32,
}

/// A subpass: the attachments it renders to, by index.
#[derive(Clone, Debug)]
pub struct SubpassDesc {
    pub color_attachments: Vec<usize>,
}

/// A render pass: attachment formats and subpasses.
#[derive(Clone, Debug)]
pub struct RenderPass {
    pub attachments: Vec<Format>,
    pub subpasses: Vec<SubpassDesc>,
}

impl RenderPass {
    /// Every colour attachment reference names an attachment of the pass.
    pub open spec fn wf(&self) -> bool {
        forall|s: int, c: int| 0 <= s < self.subpasses@.len() && 0 <= c < self.subpasses@[s].color_attachments@.len()
            ==> #[trigger] self.subpasses@[s].color_attachments@[c] < self.attachments@.len()
    }

    /// Whether every colour attachment reference names an attachment of the pass.
    pub fn is_well_formed(&self) -> (r: bool)
        ensures
            r == self.wf(),
    {
        let mut s: usize = 0;
        while s < self.subpasses.len()
            invariant
                s <= self.subpasses@.len(),
                forall|a: int, c: int| 0 <= a < s && 0 <= c < self.subpasses@[a].color_attachments@.len()
                    ==> #[trigger] self.subpasses@[a].color_attachments@[c] < self.attachments@.len(),
            decreases self.subpasses@.len() - s,
        {
            let colors = &self.subpasses[s].color_attachments;
            let mut c: usize = 0;
            while c < colors.len()
                invariant
                    s < self.subpasses@.len(),
                    colors == &self.subpasses@[s as int].color_attachments,
                    c <= colors@.len(),
                    forall|a: int, cc: int| 0 <= a < s && 0 <= cc < self.subpasses@[a].color_attachments@.len()
                        ==> #[trigger] self.subpasses@[a].color_attachments@[cc] < self.attachments@.len(),
                    forall|cc: int| 0 <= cc < c ==> #[trigger] colors@[cc] < self.attachments@.len(),
                decreases colors@.len() - c,
            {
                if colors[c] >= self.attachments.len() {
                    return false;
                }
                c = c + 1;
            }
            s = s + 1;
        }
        true
    }
}

/// One pipeline to build: its library, layout, render pass and subpass,
/// description, and the inputs reflected from its vertex shader.
#[derive(Clone, Debug)]
pub struct PipelineRequest {
    pub shader_lib: ShaderLib,
    pub layout: u64,
    pub main_pass: RenderPass,
    pub subpass: usize,
    pub desc: GraphicsPipelineDesc,
    pub vs_inputs: Vec<ReflectedInput>,
}

/// A native input element.
#[derive(Clone, Copy, Debug, PartialEq, Eq, Structural)]
pub struct InputElementDesc {
    pub semantic_name: u64,
    pub semantic_index: u32,
    pub format: u32,
    pub input_slot: u32,
    pub aligned_byte_offset: u32,
    pub per_instance: bool,
    pub instance_step_rate: u32,
}

/// A fully resolved pipeline description, ready for native creation.
#[derive(Clone, Debug)]
pub struct PipelineStateDesc {
    pub root_signature: u64,
    pub vs: Option<u64>,
    pub hs: Option<u64>,
    pub ds: Option<u64>,
    pub gs: Option<u64>,
    pub ps: Option<u64>,
    pub input_elements: Vec<InputElementDesc>,
    pub topology: u32,
    pub num_render_targets: u32,
    pub rtv_formats: Vec<u32>,
    pub dsv_format: u32,
    pub sample_count: u32,
}

/// A created pipeline and the topology it draws with.
#[derive(Clone, Copy, Debug, PartialEq, Eq, Structural)]
pub struct GraphicsPipeline {
    pub raw: u64,
    pub topology: u32,
}

/// The first reflected input at `location`, from position `i` on.
pub open spec fn first_input(inputs: Seq<ReflectedInput>, location: u32, i: int) -> Option<ReflectedInput>
    decreases inputs.len() - i,
{
    if i < 0 || i >= inputs.len() {
        None
    } else if inputs[i].semantic_index == location {
        Some(inputs[i])
    } else {
        first_input(inputs, location, i + 1)
    }
}

/// The input element for attribute `a`, or why there is none.
pub open spec fn resolve_attribute(a: AttributeDesc, buffers: Seq<VertexBufferDesc>, inputs: Seq<ReflectedInput>) -> Result<InputElementDesc, CreationError> {
    if a.binding >= buffers.len() {
        Err(CreationError::MissingBinding(a.binding))
    } else {
        match first_input(inputs, a.location, 0) {
            None => Err(CreationError::MissingLocation(a.location)),
            Some(input) => match a.format.native {
                None => Err(CreationError::Other),
                Some(f) => Ok(InputElementDesc {
                    semantic_name: input.semantic_name,
                    semantic_index: input.semantic_index,
                    format: f,
                    input_slot: a.binding,
                    aligned_byte_offset: a.offset,
                    per_instance: buffers[a.binding as int].rate != 0,
                    instance_step_rate: buffers[a.binding as int].rate as u32,
                }),
            },
        }
    }
}

/// The input elements of all attributes in order, or the first attribute's error.
pub open spec fn resolve_attributes(attrs: Seq<AttributeDesc>, buffers: Seq<VertexBufferDesc>, inputs: Seq<ReflectedInput>) -> Result<Seq<InputElementDesc>, CreationError>
    decreases attrs.len(),
{
    if attrs.len() == 0 {
        Ok(Seq::empty())
    } else {
        match resolve_attributes(attrs.drop_last(), buffers, inputs) {
            Err(e) => Err(e),
            Ok(s) => match resolve_attribute(attrs.last(), buffers, inputs) {
                Err(e) => Err(e),
                Ok(d) => Ok(s.push(d)),
            },
        }
    }
}

/// The error of request `q`, if it fails before native creation.
pub open spec fn pipeline_error(q: PipelineRequest) -> Option<CreationError> {
    match resolve_attributes(q.desc.attributes@, q.desc.vertex_buffers@, q.vs_inputs@) {
        Err(e) => Some(e),
        Ok(_) => if q.subpass >= q.main_pass.subpasses@.len() {
            Some(CreationError::InvalidSubpass(q.subpass))
        } else {
            None
        },
    }
}

/// The entry point of an optional stage, resolved in `lib`.
pub open spec fn stage_blob(lib: ShaderLib, entry: Option<String>) -> Option<u64> {
    match entry {
        Some(e) => first_blob(lib.shaders@, e@, 0),
        None => None,
    }
}

/// Render-target formats of the subpass's colour attachments: at most
/// eight, unknown where the format has no native target code, padded with
/// unknown to eight.
pub open spec fn target_formats(pass: RenderPass, subpass: int) -> Seq<u32> {
    let colors = pass.subpasses@[subpass].color_attachments@;
    Seq::new(MAX_RENDER_TARGETS as nat, |i: int| if i < colors.len() {
        match pass.attachments@[colors[i] as int].native_target {
            Some(f) => f,
            None => FORMAT_UNKNOWN,
        }
    } else {
        FORMAT_UNKNOWN
    })
}

/// `d` is the description that request `q` resolves to.
pub open spec fn describes(d: PipelineStateDesc, q: PipelineRequest) -> bool {
    let colors = q.main_pass.subpasses@[q.subpass as int].color_attachments@.len();
    &&& d.root_signature == q.layout
    &&& d.vs == first_blob(q.shader_lib.shaders@, q.desc.shader_entries.vertex_shader@, 0)
    &&& d.hs == stage_blob(q.shader_lib, q.desc.shader_entries.hull_shader)
    &&& d.ds == stage_blob(q.shader_lib, q.desc.shader_entries.domain_shader)
    &&& d.gs == stage_blob(q.shader_lib, q.desc.shader_entries.geometry_shader)
    &&& d.ps == stage_blob(q.shader_lib, q.desc.shader_entries.pixel_shader)
    &&& resolve_attributes(q.desc.attributes@, q.desc.vertex_buffers@, q.vs_inputs@) == Ok::<Seq<InputElementDesc>, CreationError>(d.input_elements@)
    &&& d.topology == q.desc.primitive
    &&& d.num_render_targets == if colors < MAX_RENDER_TARGETS { colors as int } else { MAX_RENDER_TARGETS as int }
    &&& d.rtv_formats@ == target_formats(q.main_pass, q.subpass as int)
    &&& d.dsv_format == match q.desc.depth_format {
        Some(f) => match f.native_target { Some(n) => n, None => FORMAT_UNKNOWN },
        None => FORMAT_UNKNOWN,
    }
    &&& d.sample_count == 1
}

/// `r` is the outcome that request `q` has before native creation.
pub open spec fn pipeline_outcome(r: Result<PipelineStateDesc, CreationError>, q: PipelineRequest) -> bool {
    match pipeline_error(q) {
        Some(e) => r == Err::<PipelineStateDesc, CreationError>(e),
        None => r is Ok && describes(r->Ok_0, q),
    }
}

fn find_input(inputs: &Vec<ReflectedInput>, location: u32) -> (r: Option<ReflectedInput>)
    ensures
        r == first_input(inputs@, location, 0),
{
    let mut i: usize = 0;
    while i < inputs.len()
        invariant
            i <= inputs@.len(),
            first_input(inputs@, location, 0) == first_input(inputs@, location, i as int),
        decreases inputs@.len() - i,
    {
        if inputs[i].semantic_index == location {
            return Some(inputs[i]);
        }
        i = i + 1;
    }
    None
}

fn resolve_one(a: AttributeDesc, buffers: &Vec<VertexBufferDesc>, inputs: &Vec<ReflectedInput>) -> (r: Result<InputElementDesc, CreationError>)
    ensures
        r == resolve_attribute(a, buffers@, inputs@),
{
    if a.binding as usize >= buffers.len() {
        return Err(CreationError::MissingBinding(a.binding));
    }
    let buffer = buffers[a.binding as usize];
    let input = match find_input(inputs, a.location) {
        Some(input) => input,
        None => return Err(CreationError::MissingLocation(a.location)),
    };
    let format = match a.format.native {
        Some(f) => f,
        None => return Err(CreationError::Other),
    };
    Ok(InputElementDesc {
        semantic_name: input.semantic_name,
        semantic_index: input.semantic_index,
        format,
        input_slot: a.binding,
        aligned_byte_offset: a.offset,
        per_instance: buffer.rate != 0,
        instance_step_rate: buffer.rate as u32,
    })
}

proof fn lemma_resolve_prefix_err(attrs: Seq<AttributeDesc>, buffers: Seq<VertexBufferDesc>, inputs: Seq<ReflectedInput>, i: int, j: int)
    requires
        0 <= i <= j <= attrs.len(),
        resolve_attributes(attrs.take(i), buffers, inputs) is Err,
    ensures
        resolve_attributes(attrs.take(j), buffers, inputs) == resolve_attributes(attrs.take(i), buffers, inputs),
    decreases j - i,
{
    if j > i {
        lemma_resolve_prefix_err(attrs, buffers, inputs, i, j - 1);
        assert(attrs.take(j).drop_last() =~= attrs.take(j - 1));
    }
}

fn resolve_all(attrs: &Vec<AttributeDesc>, buffers: &Vec<VertexBufferDesc>, inputs: &Vec<ReflectedInput>) -> (r: Result<Vec<InputElementDesc>, CreationError>)
    ensures
        match resolve_attributes(attrs@, buffers@, inputs@) {
            Err(e) => r == Err::<Vec<InputElementDesc>, CreationError>(e),
            Ok(s) => r is Ok && r->Ok_0@ == s,
        },
{
    let mut out: Vec<InputElementDesc> = Vec::new();
    let mut i: usize = 0;
    while i < attrs.len()
        invariant
            i <= attrs@.len(),
            resolve_attributes(attrs@.take(i as int), buffers@, inputs@) == Ok::<Seq<InputElementDesc>, CreationError>(out@),
        decreases attrs@.len() - i,
    {
        let res = resolve_one(attrs[i], buffers, inputs);
        proof {
            assert(attrs@.take(i + 1).drop_last() =~= attrs@.take(i as int));
            assert(attrs@.take(i + 1).last() == attrs@[i as int]);
        }
        match res {
            Ok(d) => {
                out.push(d);
            },
            Err(e) => {
                proof {
                    lemma_resolve_prefix_err(attrs@, buffers@, inputs@, i + 1, attrs@.len() as int);
                    assert(attrs@.take(attrs@.len() as int) =~= attrs@);
                }
                return Err(e);
            },
        }
        i = i + 1;
    }
    assert(attrs@.take(attrs@.len() as int) =~= attrs@);
    Ok(out)
}

fn optional_blob(lib: &ShaderLib, entry: &Option<String>) -> (r: Option<u64>)
    ensures
        r == stage_blob(*lib, *entry),
{
    match entry {
        Some(e) => lib.lookup(e),
        None => None,
    }
}

/// Resolves one pipeline request into its native description.
pub fn build_pipeline(q: &PipelineRequest) -> (r: Result<PipelineStateDesc, CreationError>)
    requires
        q.main_pass.wf(),
    ensures
        pipeline_outcome(r, *q),
{
    let lib = &q.shader_lib;
    let entries = &q.desc.shader_entries;
    let vs = lib.lookup(&entries.vertex_shader);
    let ps = optional_blob(lib, &entries.pixel_shader);
    let gs = optional_blob(lib, &entries.geometry_shader);
    let ds = optional_blob(lib, &entries.domain_shader);
    let hs = optional_blob(lib, &entries.hull_shader);

    let input_elements = match resolve_all(&q.desc.attributes, &q.desc.vertex_buffers, &q.vs_inputs) {
        Ok(v) => v,
        Err(e) => return Err(e),
    };

    if q.subpass >= q.main_pass.subpasses.len() {
        return Err(CreationError::InvalidSubpass(q.subpass));
    }
    let colors = &q.main_pass.subpasses[q.subpass].color_attachments;
    let mut rtv_formats: Vec<u32> = Vec::new();
    let mut num_rtvs: u32 = 0;
    let mut i: usize = 0;
    while i < MAX_RENDER_TARGETS
        invariant
            i <= MAX_RENDER_TARGETS,
            q.main_pass.wf(),
            q.subpass < q.main_pass.subpasses@.len(),
            colors == &q.main_pass.subpasses@[q.subpass as int].color_attachments,
            rtv_formats@ == target_formats(q.main_pass, q.subpass as int).take(i as int),
            num_rtvs == if i < colors@.len() { i as int } else { colors@.len() as int },
        decreases MAX_RENDER_TARGETS - i,
    {
        if i < colors.len() {
            let target = colors[i];
            assert(target < q.main_pass.attachments@.len());
            let f = match q.main_pass.attachments[target].native_target {
                Some(f) => f,
                None => FORMAT_UNKNOWN,
            };
            rtv_formats.push(f);
            num_rtvs = num_rtvs + 1;
        } else {
            rtv_formats.push(FORMAT_UNKNOWN);
        }
        i = i + 1;
        assert(rtv_formats@ =~= target_formats(q.main_pass, q.subpass as int).take(i as int));
    }
    assert(target_formats(q.main_pass, q.subpass as int).take(MAX_RENDER_TARGETS as int)
        =~= target_formats(q.main_pass, q.subpass as int));

    let dsv_format = match q.desc.depth_format {
        Some(f) => match f.native_target {
            Some(n) => n,
            None => FORMAT_UNKNOWN,
        },
        None => FORMAT_UNKNOWN,
    };

    Ok(PipelineStateDesc {
        root_signature: q.layout,
        vs,
        hs,
        ds,
        gs,
        ps,
        input_elements,
        topology: q.desc.primitive,
        num_render_targets: num_rtvs,
        rtv_formats,
        dsv_format,
        sample_count: 1,
    })
}

/// The pipeline that native creation gave, by its status: any failure
/// status is a generic creation error.
pub fn pipeline_from_native(status: i32, raw: u64, topology: u32) -> (r: Result<GraphicsPipeline, CreationError>)
    ensures
        status >= 0 ==> r == Ok::<GraphicsPipeline, CreationError>(GraphicsPipeline { raw, topology }),
        status < 0 ==> r == Err::<GraphicsPipeline, CreationError>(CreationError::Other),
{
    if status >= 0 {
        Ok(GraphicsPipeline { raw, topology })
    } else {
        Err(CreationError::Other)
    }
}

/// In a batch where request `j` alone names a subpass past its render
/// pass, and every request's attributes resolve, outcome `j` is the
/// invalid-subpass error for that index and every other outcome is the
/// request's own description.
pub proof fn lemma_batch_one_invalid_subpass(
    descs: Seq<PipelineRequest>,
    r: Seq<Result<PipelineStateDesc, CreationError>>,
    j: int,
)
    requires
        r.len() == descs.len(),
        forall|i: int| 0 <= i < descs.len() ==> pipeline_outcome(#[trigger] r[i], descs[i]),
        0 <= j < descs.len(),
        descs[j].subpass >= descs[j].main_pass.subpasses@.len(),
        forall|i: int| 0 <= i < descs.len() ==> (#[trigger] resolve_attributes(
            descs[i].desc.attributes@,
            descs[i].desc.vertex_buffers@,
            descs[i].vs_inputs@,
        )) is Ok,
        forall|i: int| 0 <= i < descs.len() && i != j ==>
            (#[trigger] descs[i]).subpass < descs[i].main_pass.subpasses@.len(),
    ensures
        r[j] == Err::<PipelineStateDesc, CreationError>(CreationError::InvalidSubpass(descs[j].subpass)),
        forall|i: int| 0 <= i < descs.len() && i != j ==> (#[trigger] r[i]) is Ok && describes(r[i]->Ok_0, descs[i]),
{
    assert(pipeline_outcome(r[j], descs[j]));
    assert(resolve_attributes(descs[j].desc.attributes@, descs[j].desc.vertex_buffers@, descs[j].vs_inputs@) is Ok);
    assert forall|i: int| 0 <= i < descs.len() && i != j implies (#[trigger] r[i]) is Ok && describes(r[i]->Ok_0, descs[i]) by {
        assert(pipeline_outcome(r[i], descs[i]));
        assert(resolve_attributes(descs[i].desc.attributes@, descs[i].desc.vertex_buffers@, descs[i].vs_inputs@) is Ok);
        assert(descs[i].subpass < descs[i].main_pass.subpasses@.len());
    }
}

/// How many descriptors of one type a pool holds.
#[derive(Clone, Copy, Debug, PartialEq, Eq, Structural)]
pub struct DescriptorRangeDesc {
    pub ty: DescriptorType,
    pub count: usize,
}

/// A descriptor pool: its ranges, the most sets it holds, and where its
/// slice of the shared heaps starts (always the start: slices are not
/// carved out yet).
#[derive(Clone, Debug)]
pub struct DescriptorPool {
    pub pools: Vec<DescriptorRangeDesc>,
    pub max_size: u64,
    pub offset: u64,
}

impl Device {
    /// A library from the blobs made for each entry point's byte code, in
    /// order; `None` marks a blob that could not be made, which fails the
    /// whole library with a fixed message.
    pub fn create_shader_library(&self, blobs: &Vec<(String, Option<u64>)>) -> (r: Result<ShaderLib, CreateShaderError>)
        ensures
            (forall|i: int| 0 <= i < blobs@.len() ==> (#[trigger] blobs@[i]).1 is Some) ==> r is Ok
                && r->Ok_0.shaders@.len() == blobs@.len()
                && forall|i: int| 0 <= i < blobs@.len() ==>
                    (#[trigger] r->Ok_0.shaders@[i]).0@ == blobs@[i].0@ && r->Ok_0.shaders@[i].1 == blobs@[i].1->0,
            (exists|i: int| 0 <= i < blobs@.len() && (#[trigger] blobs@[i]).1 is None) ==>
                (r matches Err(CreateShaderError::CompilationFailed(m)) && m@ == "D3DCreateBlob fail"@),
    {
        let mut shaders: Vec<(String, u64)> = Vec::new();
        let mut i: usize = 0;
        while i < blobs.len()
            invariant
                i <= blobs@.len(),
                forall|k: int| 0 <= k < i ==> (#[trigger] blobs@[k]).1 is Some,
                shaders@.len() == i,
                forall|k: int| 0 <= k < i ==>
                    (#[trigger] shaders@[k]).0@ == blobs@[k].0@ && shaders@[k].1 == blobs@[k].1->0,
            decreases blobs@.len() - i,
        {
            match blobs[i].1 {
                Some(blob) => {
                    shaders.push((blobs[i].0.clone(), blob));
                },
                None => {
                    let message = "D3DCreateBlob fail".to_owned();
                    proof {
                        reveal_strlit("D3DCreateBlob fail");
                    }
                    return Err(CreateShaderError::CompilationFailed(message));
                },
            }
            i = i + 1;
        }
        Ok(ShaderLib { shaders })
    }

    /// A library from the outcome of compiling each entry point's source, in
    /// order; the first compiler failure is returned with its diagnostics.
    pub fn create_shader_library_from_source(&self, compiled: &Vec<(String, Result<u64, String>)>) -> (r: Result<ShaderLib, CreateShaderError>)
        ensures
            first_failure(compiled@, 0) is None ==> r is Ok
                && r->Ok_0.shaders@.len() == compiled@.len()
                && forall|i: int| 0 <= i < compiled@.len() ==>
                    (#[trigger] r->Ok_0.shaders@[i]).0@ == compiled@[i].0@ && r->Ok_0.shaders@[i].1 == compiled@[i].1->Ok_0,
            first_failure(compiled@, 0) matches Some(e) ==> r matches Err(CreateShaderError::CompilationFailed(m)) && m@ == e@,
    {
        collect_blobs(compiled)
    }

    /// The root signature of a pipeline layout over `sets`: every binding
    /// becomes a range, in set order and then binding order, and set `k`
    /// becomes one table over its own ranges.
    pub fn create_pipeline_layout(&self, sets: &Vec<DescriptorSetLayout>) -> (r: RootSignatureDesc)
        requires
            forall|k: int, j: int| 0 <= k < sets@.len() && 0 <= j < sets@[k].bindings@.len()
                ==> binding_supported(#[trigger] sets@[k].bindings@[j]),
        ensures
            r.ranges@.len() == flat_bindings(set_bindings(sets@)).len(),
            forall|i: int| 0 <= i < r.ranges@.len() ==>
                #[trigger] r.ranges@[i] == binding_range(flat_bindings(set_bindings(sets@))[i], i),
            r.parameters@.len() == sets@.len(),
            forall|k: int| 0 <= k < sets@.len() ==> (#[trigger] r.parameters@[k]).range_base
                == flat_bindings(set_bindings(sets@).take(k)).len()
                && r.parameters@[k].count == sets@[k].bindings@.len(),
    {
        let mut ranges: Vec<DescriptorRange> = Vec::new();
        let mut parameters: Vec<RootParameter> = Vec::new();
        let mut k: usize = 0;
        while k < sets.len()
            invariant
                k <= sets@.len(),
                forall|a: int, j: int| 0 <= a < sets@.len() && 0 <= j < sets@[a].bindings@.len()
                    ==> binding_supported(#[trigger] sets@[a].bindings@[j]),
                ranges@.len() == flat_bindings(set_bindings(sets@).take(k as int)).len(),
                forall|i: int| 0 <= i < ranges@.len() ==>
                    #[trigger] ranges@[i] == binding_range(flat_bindings(set_bindings(sets@).take(k as int))[i], i),
                parameters@.len() == k,
                forall|a: int| 0 <= a < k ==> (#[trigger] parameters@[a]).range_base
                    == flat_bindings(set_bindings(sets@).take(a)).len()
                    && parameters@[a].count == sets@[a].bindings@.len(),
            decreases sets@.len() - k,
        {
            let ghost before = flat_bindings(set_bindings(sets@).take(k as int));
            let bindings = &sets[k].bindings;
            let range_base = ranges.len();
            let mut j: usize = 0;
            while j < bindings.len()
                invariant
                    k < sets@.len(),
                    bindings == &sets@[k as int].bindings,
                    forall|a: int, jj: int| 0 <= a < sets@.len() && 0 <= jj < sets@[a].bindings@.len()
                        ==> binding_supported(#[trigger] sets@[a].bindings@[jj]),
                    j <= bindings@.len(),
                    range_base == before.len(),
                    ranges@.len() == before.len() + j,
                    forall|i: int| 0 <= i < ranges@.len() ==>
                        #[trigger] ranges@[i] == binding_range((before + bindings@)[i], i),
                decreases bindings@.len() - j,
            {
                let b = bindings[j];
                assert(binding_supported(sets@[k as int].bindings@[j as int]));
                let offset = if ranges.len() == 0 { 0 } else { DESCRIPTOR_RANGE_OFFSET_APPEND };
                ranges.push(DescriptorRange {
                    range_type: map_range_type(b.ty),
                    num_descriptors: b.count as u32,
                    base_shader_register: b.binding as u32,
                    register_space: 0,
                    offset_from_table_start: offset,
                });
                j = j + 1;
            }
            proof {
                let s = set_bindings(sets@);
                assert(s.take(k + 1).drop_last() =~= s.take(k as int));
                assert(s.take(k + 1).last() == bindings@);
            }
            parameters.push(RootParameter { range_base, count: bindings.len() });
            k = k + 1;
        }
        assert(set_bindings(sets@).take(sets@.len() as int) =~= set_bindings(sets@));
        RootSignatureDesc { ranges, parameters }
    }

    /// Resolves each request of a batch on its own: one outcome per request,
    /// in order, so that a failing request does not hold back the others.
    pub fn create_graphics_pipelines(&self, descs: &Vec<PipelineRequest>) -> (r: Vec<Result<PipelineStateDesc, CreationError>>)
        requires
            forall|i: int| 0 <= i < descs@.len() ==> (#[trigger] descs@[i]).main_pass.wf(),
        ensures
            r@.len() == descs@.len(),
            forall|i: int| 0 <= i < descs@.len() ==> pipeline_outcome(#[trigger] r@[i], descs@[i]),
    {
        let mut r: Vec<Result<PipelineStateDesc, CreationError>> = Vec::new();
        let mut i: usize = 0;
        while i < descs.len()
            invariant
                i <= descs@.len(),
                forall|k: int| 0 <= k < descs@.len() ==> (#[trigger] descs@[k]).main_pass.wf(),
                r@.len() == i,
                forall|k: int| 0 <= k < i ==> pipeline_outcome(#[trigger] r@[k], descs@[k]),
            decreases descs@.len() - i,
        {
            let outcome = build_pipeline(&descs[i]);
            r.push(outcome);
            i = i + 1;
        }
        r
    }

    /// A render pass over `attachments` with `subpasses`, kept as given.
    pub fn create_renderpass(&self, attachments: Vec<Format>, subpasses: Vec<SubpassDesc>) -> (r: RenderPass)
        ensures
            r.attachments@ == attachments@,
            r.subpasses@ == subpasses@,
    {
        RenderPass { attachments, subpasses }
    }

    /// A descriptor set layout with `bindings` in the order given; that order
    /// is the order of the ranges of the set's table.
    pub fn create_descriptor_set_layout(&self, bindings: &[DescriptorSetLayoutBinding]) -> (r: DescriptorSetLayout)
        ensures
            r.bindings@ == bindings@,
    {
        let mut v: Vec<DescriptorSetLayoutBinding> = Vec::new();
        let mut i: usize = 0;
        while i < bindings.len()
            invariant
                i <= bindings@.len(),
                v@ == bindings@.subrange(0, i as int),
            decreases bindings@.len() - i,
        {
            v.push(bindings[i]);
            i = i + 1;
            assert(v@ =~= bindings@.subrange(0, i as int));
        }
        assert(bindings@.subrange(0, bindings@.len() as int) =~= bindings@);
        DescriptorSetLayout { bindings: v }
    }

    /// A descriptor pool for at most `max_sets` sets over `ranges`.
    pub fn create_descriptor_pool(&self, max_sets: usize, ranges: Vec<DescriptorRangeDesc>) -> (r: DescriptorPool)
        ensures
            r.pools@ == ranges@,
            r.max_size == max_sets,
            r.offset == 0,
    {
        DescriptorPool { pools: ranges, max_size: max_sets as u64, offset: 0 }
    }
}

} // verus!
