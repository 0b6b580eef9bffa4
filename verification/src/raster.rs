//! Pipeline layouts and raster pipelines: from one descriptor to the native
//! state that the pipeline is created from.

use vstd::prelude::*;
use std::convert::Infallible;
use crate::conv::{
    is_cull_mode, map_blend_component, map_cull_face, map_depth_function, map_front_face,
    map_polygon_mode, map_shader_stage, map_texture_format, map_topology, map_vertex_format,
    native_blend_factor, native_blend_op, native_compare_op, native_cull_mode, native_front_face,
    native_polygon_mode, native_shader_stages, native_topology,
};
use crate::device::Device;
use crate::flags::{PipelineLayoutFlags, ShaderStages};
use crate::format::native_vertex_format;
use crate::native;
use crate::pipeline::{
    ColorTargetState, DepthStencilState, MultisampleState, PrimitiveState, PushConstantRange,
    VertexAttribute, VertexBufferLayout, VertexStepMode,
};
use crate::shader::ShaderModule;

verus! {

/// A pipeline layout of the native API.
#[derive(Clone, Copy, Debug, PartialEq, Eq, Structural)]
pub struct PipelineLayout {
    pub handle: u64,
}

/// A binding group layout of the native API.
#[derive(Clone, Copy, Debug, PartialEq, Eq, Structural)]
pub struct BindGroupLayout {
    pub handle: u64,
}

/// Describes a pipeline layout to create.
pub struct PipelineLayoutInfo<'a> {
    pub flags: PipelineLayoutFlags,
    pub bind_group_layouts: &'a [&'a BindGroupLayout],
    pub push_constant_ranges: &'a [PushConstantRange],
}

/// Describes a binding group layout: its entries.
pub struct BindGroupLayoutDescriptor<'a> {
    entries: &'a [BindGroupLayoutEntry],
}

/// One binding of a binding group layout: its number, the stages that see
/// it, its kind, and for an array of bindings their count, which is not
/// zero.
pub struct BindGroupLayoutEntry {
    binding: u32,
    visibility: ShaderStages,
    ty: BindingType,
    count: Option<u32>,
}

/// The kinds of binding. There is none yet: the one variant holds a value
/// that cannot exist.
pub enum BindingType {
    Never(Infallible),
}

/// A shader module and the entry point to run in it.
#[derive(Clone, Copy, Debug)]
pub struct ShaderStage<'a> {
    pub module: &'a ShaderModule,
    pub entry_point: &'a str,
}

pub struct FragmentState<'a> {
    pub module: &'a ShaderModule,
}

/// Describes a raster pipeline to create. `F` is the type of the line width
/// and of the depth bias factors.
pub struct RasterPipelineInfo<'a, F> {
    pub layout: &'a PipelineLayout,
    pub vertex: ShaderStage<'a>,
    pub vertex_buffers: &'a [VertexBufferLayout<'a>],
    pub fragment: Option<ShaderStage<'a>>,
    pub primitive: PrimitiveState<F>,
    pub depth_stencil: Option<DepthStencilState<F>>,
    pub multisample: MultisampleState,
    pub targets: &'a [ColorTargetState],
}

pub struct ComputePipelineInfo {}

/// A raster pipeline of the native API.
#[derive(Clone, Copy, Debug, PartialEq, Eq, Structural)]
pub struct RasterPipeline {
    pub handle: u64,
}

/// A compute pipeline of the native API.
#[derive(Clone, Copy, Debug, PartialEq, Eq, Structural)]
pub struct ComputePipeline {
    pub handle: u64,
}

/// The native range of a push-constant range: the stages by
/// `native_shader_stages`, the offset of the first byte, and the length.
pub open spec fn native_push_constant_range(range: PushConstantRange) -> native::PushConstantRange {
    native::PushConstantRange {
        stage_flags: native_shader_stages(range.stages),
        offset: range.range.start,
        size: (range.range.end - range.range.start) as u32,
    }
}

impl<'a> PipelineLayoutInfo<'a> {
    /// Every push-constant range runs forward and is aligned to four bytes.
    pub open spec fn well_formed(&self) -> bool {
        forall|i: int|
            0 <= i < self.push_constant_ranges@.len()
                ==> #[trigger] self.push_constant_ranges@[i].well_formed()
    }

    /// Whether the descriptor is well formed.
    pub fn is_well_formed(&self) -> (ok: bool)
        ensures
            ok == self.well_formed(),
    {
        let mut i: usize = 0;
        while i < self.push_constant_ranges.len()
            invariant
                i <= self.push_constant_ranges@.len(),
                forall|k: int| 0 <= k < i ==> #[trigger] self.push_constant_ranges@[k].well_formed(),
            decreases self.push_constant_ranges@.len() - i,
        {
            if !self.push_constant_ranges[i].is_well_formed() {
                return false;
            }
            i += 1;
        }
        true
    }
}

pub open spec fn native_input_rate(step_mode: VertexStepMode) -> i32 {
    match step_mode {
        VertexStepMode::Vertex => native::VERTEX_INPUT_RATE_VERTEX,
        VertexStepMode::Instance => native::VERTEX_INPUT_RATE_INSTANCE,
    }
}

/// The low 32 bits of an address. The native API holds strides and attribute
/// offsets in 32 bits.
pub open spec fn low_word(value: u64) -> u32 {
    (value % 0x1_0000_0000) as u32
}

/// The native binding of the vertex buffer at position `index`.
pub open spec fn native_vertex_binding(
    index: int,
    layout: VertexBufferLayout<'_>,
) -> native::VertexInputBindingDescription {
    native::VertexInputBindingDescription {
        binding: index as u32,
        stride: low_word(layout.array_stride),
        input_rate: native_input_rate(layout.step_mode),
    }
}

/// The native attribute of an attribute of the vertex buffer at position
/// `binding`.
pub open spec fn native_vertex_attribute(
    binding: int,
    attribute: VertexAttribute,
) -> native::VertexInputAttributeDescription {
    native::VertexInputAttributeDescription {
        location: attribute.location,
        binding: binding as u32,
        format: native_vertex_format(attribute.format),
        offset: low_word(attribute.offset),
    }
}

/// The native attributes of the first `count` attributes of the vertex buffer
/// at position `binding`.
pub open spec fn native_buffer_attributes(
    binding: int,
    layout: VertexBufferLayout<'_>,
    count: int,
) -> Seq<native::VertexInputAttributeDescription> {
    Seq::new(count as nat, |j: int| native_vertex_attribute(binding, layout.attributes@[j]))
}

/// The native attributes of the first `count` vertex buffers: those of the
/// first buffer in their order, then those of the second, and so on, each
/// addressed to the binding of its buffer.
pub open spec fn native_vertex_attributes(
    buffers: Seq<VertexBufferLayout<'_>>,
    count: int,
) -> Seq<native::VertexInputAttributeDescription>
    decreases count,
{
    if count <= 0 {
        Seq::empty()
    } else {
        native_vertex_attributes(buffers, count - 1) + native_buffer_attributes(
            count - 1,
            buffers[count - 1],
            buffers[count - 1].attributes@.len() as int,
        )
    }
}

/// The native blend state of one color target. Without a blend state the
/// target is written unblended; with one, blending is on with the native
/// factors and operations of that state.
pub open spec fn native_color_blend_attachment(
    target: ColorTargetState,
) -> native::PipelineColorBlendAttachmentState {
    match target.blend {
        Some(blend) => native::PipelineColorBlendAttachmentState {
            blend_enable: true,
            src_color_blend_factor: native_blend_factor(blend.color.src_factor),
            dst_color_blend_factor: native_blend_factor(blend.color.dst_factor),
            color_blend_op: native_blend_op(blend.color.operation),
            src_alpha_blend_factor: native_blend_factor(blend.alpha.src_factor),
            dst_alpha_blend_factor: native_blend_factor(blend.alpha.dst_factor),
            alpha_blend_op: native_blend_op(blend.alpha.operation),
            color_write_mask: target.write_mask.bits,
        },
        None => native::PipelineColorBlendAttachmentState {
            blend_enable: false,
            src_color_blend_factor: native::BLEND_FACTOR_ZERO,
            dst_color_blend_factor: native::BLEND_FACTOR_ZERO,
            color_blend_op: native::BLEND_OP_ADD,
            src_alpha_blend_factor: native::BLEND_FACTOR_ZERO,
            dst_alpha_blend_factor: native::BLEND_FACTOR_ZERO,
            alpha_blend_op: native::BLEND_OP_ADD,
            color_write_mask: target.write_mask.bits,
        },
    }
}

/// The native blend state of a color target tells the target's blend state
/// and write mask: blending is off exactly where the target has no blend
/// state, and two targets with the same native state have the same blend
/// state, factor for factor and operation for operation.
pub proof fn lemma_blend_round_trip(a: ColorTargetState, b: ColorTargetState)
    ensures
        native_color_blend_attachment(a).blend_enable == a.blend.is_some(),
        native_color_blend_attachment(a) == native_color_blend_attachment(b) ==> a.blend == b.blend
            && a.write_mask == b.write_mask,
{
    if native_color_blend_attachment(a) == native_color_blend_attachment(b) {
        match (a.blend, b.blend) {
            (Some(x), Some(y)) => {
                crate::conv::lemma_blend_codes_injective(x.color, y.color);
                crate::conv::lemma_blend_codes_injective(x.alpha, y.alpha);
            },
            _ => {},
        }
    }
}

/// The native blend state of one color target.
pub fn color_blend_attachment(target: &ColorTargetState) -> (attachment:
    native::PipelineColorBlendAttachmentState)
    ensures
        attachment == native_color_blend_attachment(*target),
{
    match target.blend {
        Some(blend) => {
            let (color_op, color_src, color_dst) = map_blend_component(&blend.color);
            let (alpha_op, alpha_src, alpha_dst) = map_blend_component(&blend.alpha);
            native::PipelineColorBlendAttachmentState {
                blend_enable: true,
                src_color_blend_factor: color_src,
                dst_color_blend_factor: color_dst,
                color_blend_op: color_op,
                src_alpha_blend_factor: alpha_src,
                dst_alpha_blend_factor: alpha_dst,
                alpha_blend_op: alpha_op,
                color_write_mask: target.write_mask.bits,
            }
        },
        None => native::PipelineColorBlendAttachmentState {
            blend_enable: false,
            src_color_blend_factor: native::BLEND_FACTOR_ZERO,
            dst_color_blend_factor: native::BLEND_FACTOR_ZERO,
            color_blend_op: native::BLEND_OP_ADD,
            src_alpha_blend_factor: native::BLEND_FACTOR_ZERO,
            dst_alpha_blend_factor: native::BLEND_FACTOR_ZERO,
            alpha_blend_op: native::BLEND_OP_ADD,
            color_write_mask: target.write_mask.bits,
        },
    }
}

/// The native input assembly: the topology, and primitive restart exactly
/// where a strip index format is given.
pub open spec fn native_input_assembly<F>(
    primitive: PrimitiveState<F>,
) -> native::PipelineInputAssemblyStateCreateInfo {
    native::PipelineInputAssemblyStateCreateInfo {
        topology: native_topology(primitive.topology),
        primitive_restart_enable: primitive.strip_index_format.is_some(),
    }
}

/// The native multisample state: the sample count as it is, and the coverage
/// mask split into its low and its high 32 bits.
pub open spec fn native_multisample(
    multisample: MultisampleState,
) -> native::PipelineMultisampleStateCreateInfo {
    native::PipelineMultisampleStateCreateInfo {
        rasterization_samples: multisample.count,
        alpha_to_coverage_enable: multisample.alpha_to_coverage_enabled,
        sample_mask_low: (multisample.mask % 0x1_0000_0000) as u32,
        sample_mask_high: (multisample.mask / 0x1_0000_0000) as u32,
    }
}

/// The native multisample state.
pub fn multisample_state(multisample: &MultisampleState) -> (state:
    native::PipelineMultisampleStateCreateInfo)
    ensures
        state == native_multisample(*multisample),
        state.sample_mask_low as int + 0x1_0000_0000 * (state.sample_mask_high as int)
            == multisample.mask,
{
    native::PipelineMultisampleStateCreateInfo {
        rasterization_samples: multisample.count,
        alpha_to_coverage_enable: multisample.alpha_to_coverage_enabled,
        sample_mask_low: (multisample.mask % 0x1_0000_0000) as u32,
        sample_mask_high: (multisample.mask / 0x1_0000_0000) as u32,
    }
}

/// The native rasterization state. Polygon mode, front face and line width
/// are always set. The cull mode is set where the descriptor gives one, the
/// depth bias where it has a depth test, conservative rasterization (by
/// overestimation) and disabled depth clipping where it asks for them.
pub open spec fn native_rasterization<F>(
    primitive: PrimitiveState<F>,
    depth_stencil: Option<DepthStencilState<F>>,
) -> native::PipelineRasterizationStateCreateInfo<F> {
    native::PipelineRasterizationStateCreateInfo {
        polygon_mode: native_polygon_mode(primitive.polygon_mode),
        front_face: native_front_face(primitive.front_face),
        line_width: primitive.line_width,
        cull_mode: match primitive.cull_mode {
            Some(face) => Some(native_cull_mode(face)),
            None => None,
        },
        depth_bias: match depth_stencil {
            Some(state) => Some(
                native::DepthBias {
                    constant_factor: state.bias.constant,
                    clamp: state.bias.clamp,
                    slope_factor: state.bias.slope,
                },
            ),
            None => None,
        },
        conservative_rasterization_mode: if primitive.conservative {
            Some(native::CONSERVATIVE_RASTERIZATION_MODE_OVERESTIMATE)
        } else {
            None
        },
        depth_clip_enable: if primitive.unclipped_depth {
            Some(false)
        } else {
            None
        },
    }
}

/// The native depth and stencil state of a depth test: the depth test is on,
/// with the descriptor's write flag and comparison; the depth bounds test and
/// the stencil test are off.
pub open spec fn native_depth_stencil<F>(
    state: DepthStencilState<F>,
) -> native::PipelineDepthStencilStateCreateInfo {
    native::PipelineDepthStencilStateCreateInfo {
        depth_test_enable: true,
        depth_write_enable: state.write,
        depth_compare_op: native_compare_op(state.depth_compare),
        depth_bounds_test_enable: false,
        stencil_test_enable: false,
    }
}

/// The state that is set while recording: viewport, scissor, blend
/// constants and stencil reference, in this order.
pub open spec fn dynamic_states() -> Seq<i32> {
    seq![
        native::DYNAMIC_STATE_VIEWPORT,
        native::DYNAMIC_STATE_SCISSOR,
        native::DYNAMIC_STATE_BLEND_CONSTANTS,
        native::DYNAMIC_STATE_STENCIL_REFERENCE,
    ]
}

/// The rectangle that stands in for the viewport and for the scissor of a
/// pipeline: one texel at the origin.
pub open spec fn unit_rect() -> native::Rect2D {
    native::Rect2D {
        offset: native::Offset2D { x: 0, y: 0 },
        extent: native::Extent2D { width: 1, height: 1 },
    }
}

/// The viewport that stands in for the viewport of a pipeline: the unit
/// rectangle, with no depth.
pub open spec fn unit_viewport() -> native::Viewport {
    native::Viewport { rect: unit_rect(), min_depth: 0, max_depth: 0 }
}

/// The native shader stages of a pipeline: the vertex stage, then the
/// fragment stage if there is one.
pub open spec fn native_stages<'a>(
    vertex: ShaderStage<'a>,
    fragment: Option<ShaderStage<'a>>,
) -> Seq<native::PipelineShaderStageCreateInfo<'a>> {
    let first = native::PipelineShaderStageCreateInfo {
        stage: native::SHADER_STAGE_VERTEX,
        module: vertex.module.handle,
        name: vertex.entry_point,
    };
    match fragment {
        Some(stage) => seq![
            first,
            native::PipelineShaderStageCreateInfo {
                stage: native::SHADER_STAGE_FRAGMENT,
                module: stage.module.handle,
                name: stage.entry_point,
            },
        ],
        None => seq![first],
    }
}

impl<'a, F: Copy> RasterPipelineInfo<'a, F> {
    /// The cull mode, if one is given, is one that the native API has, and
    /// the vertex buffers can be numbered in 32 bits.
    pub open spec fn well_formed(&self) -> bool {
        &&& self.vertex_buffers@.len() <= u32::MAX
        &&& match self.primitive.cull_mode {
            Some(face) => is_cull_mode(face),
            None => true,
        }
    }

    /// Whether the descriptor is well formed.
    pub fn is_well_formed(&self) -> (ok: bool)
        ensures
            ok == self.well_formed(),
    {
        let cull_ok = match self.primitive.cull_mode {
            Some(face) => crate::conv::has_native_cull_mode(face),
            None => true,
        };
        cull_ok && self.vertex_buffers.len() <= u32::MAX as usize
    }

    /// The native vertex input bindings: one for each vertex buffer, numbered
    /// by the buffer's position.
    pub fn vertex_bindings(&self) -> (bindings: Vec<native::VertexInputBindingDescription>)
        requires
            self.vertex_buffers@.len() <= u32::MAX,
        ensures
            bindings@ == Seq::new(
                self.vertex_buffers@.len(),
                |i: int| native_vertex_binding(i, self.vertex_buffers@[i]),
            ),
    {
        let mut bindings: Vec<native::VertexInputBindingDescription> = Vec::new();
        let mut i: usize = 0;
        while i < self.vertex_buffers.len()
            invariant
                self.vertex_buffers@.len() <= u32::MAX,
                i <= self.vertex_buffers@.len(),
                bindings@ == Seq::new(
                    i as nat,
                    |k: int| native_vertex_binding(k, self.vertex_buffers@[k]),
                ),
            decreases self.vertex_buffers@.len() - i,
        {
            let vb = &self.vertex_buffers[i];
            bindings.push(
                native::VertexInputBindingDescription {
                    binding: i as u32,
                    stride: (vb.array_stride % 0x1_0000_0000) as u32,
                    input_rate: match vb.step_mode {
                        VertexStepMode::Vertex => native::VERTEX_INPUT_RATE_VERTEX,
                        VertexStepMode::Instance => native::VERTEX_INPUT_RATE_INSTANCE,
                    },
                },
            );
            i += 1;
            assert(bindings@ =~= Seq::new(
                i as nat,
                |k: int| native_vertex_binding(k, self.vertex_buffers@[k]),
            ));
        }
        bindings
    }

    /// The native vertex input attributes: those of every vertex buffer, in
    /// the order of the buffers and of their attributes.
    pub fn vertex_attributes(&self) -> (attributes: Vec<native::VertexInputAttributeDescription>)
        requires
            self.vertex_buffers@.len() <= u32::MAX,
        ensures
            attributes@ == native_vertex_attributes(
                self.vertex_buffers@,
                self.vertex_buffers@.len() as int,
            ),
    {
        let mut attributes: Vec<native::VertexInputAttributeDescription> = Vec::new();
        let mut i: usize = 0;
        while i < self.vertex_buffers.len()
            invariant
                self.vertex_buffers@.len() <= u32::MAX,
                i <= self.vertex_buffers@.len(),
                attributes@ == native_vertex_attributes(self.vertex_buffers@, i as int),
            decreases self.vertex_buffers@.len() - i,
        {
            let vb = &self.vertex_buffers[i];
            let mut j: usize = 0;
            while j < vb.attributes.len()
                invariant
                    i < self.vertex_buffers@.len() <= u32::MAX,
                    *vb == self.vertex_buffers@[i as int],
                    j <= vb.attributes@.len(),
                    attributes@ == native_vertex_attributes(self.vertex_buffers@, i as int)
                        + native_buffer_attributes(i as int, *vb, j as int),
                decreases vb.attributes@.len() - j,
            {
                let at = &vb.attributes[j];
                attributes.push(
                    native::VertexInputAttributeDescription {
                        location: at.location,
                        binding: i as u32,
                        format: map_vertex_format(at.format),
                        offset: (at.offset % 0x1_0000_0000) as u32,
                    },
                );
                j += 1;
                assert(attributes@ =~= native_vertex_attributes(self.vertex_buffers@, i as int)
                    + native_buffer_attributes(i as int, *vb, j as int));
            }
            i += 1;
        }
        attributes
    }

    /// The native blend states and formats of the color targets, in the
    /// descriptor's order.
    pub fn color_targets(&self) -> (targets: (
        Vec<native::PipelineColorBlendAttachmentState>,
        Vec<i32>,
    ))
        ensures
            targets.0@ == Seq::new(
                self.targets@.len(),
                |i: int| native_color_blend_attachment(self.targets@[i]),
            ),
            targets.1@ == Seq::new(
                self.targets@.len(),
                |i: int| self.targets@[i].format.native_code(),
            ),
    {
        let mut attachments: Vec<native::PipelineColorBlendAttachmentState> = Vec::new();
        let mut formats: Vec<i32> = Vec::new();
        let mut i: usize = 0;
        while i < self.targets.len()
            invariant
                i <= self.targets@.len(),
                attachments@ == Seq::new(
                    i as nat,
                    |k: int| native_color_blend_attachment(self.targets@[k]),
                ),
                formats@ == Seq::new(i as nat, |k: int| self.targets@[k].format.native_code()),
            decreases self.targets@.len() - i,
        {
            let target = &self.targets[i];
            formats.push(map_texture_format(target.format));
            attachments.push(color_blend_attachment(target));
            i += 1;
            assert(attachments@ =~= Seq::new(
                i as nat,
                |k: int| native_color_blend_attachment(self.targets@[k]),
            ));
            assert(formats@ =~= Seq::new(
                i as nat,
                |k: int| self.targets@[k].format.native_code(),
            ));
        }
        (attachments, formats)
    }

    /// The native rasterization state.
    pub fn rasterization_state(&self) -> (state: native::PipelineRasterizationStateCreateInfo<F>)
        requires
            self.well_formed(),
        ensures
            state == native_rasterization(self.primitive, self.depth_stencil),
    {
        native::PipelineRasterizationStateCreateInfo {
            polygon_mode: map_polygon_mode(self.primitive.polygon_mode),
            front_face: map_front_face(self.primitive.front_face),
            line_width: self.primitive.line_width,
            cull_mode: match self.primitive.cull_mode {
                Some(face) => Some(map_cull_face(face)),
                None => None,
            },
            depth_bias: match &self.depth_stencil {
                Some(state) => Some(
                    native::DepthBias {
                        constant_factor: state.bias.constant,
                        clamp: state.bias.clamp,
                        slope_factor: state.bias.slope,
                    },
                ),
                None => None,
            },
            conservative_rasterization_mode: if self.primitive.conservative {
                Some(native::CONSERVATIVE_RASTERIZATION_MODE_OVERESTIMATE)
            } else {
                None
            },
            depth_clip_enable: if self.primitive.unclipped_depth {
                Some(false)
            } else {
                None
            },
        }
    }
}

impl<E> Device<E> {
    /// What the native pipeline layout is created from: the handles of the
    /// binding group layouts and the native push-constant ranges, both in the
    /// descriptor's order, and no creation flag.
    pub fn create_pipeline_layout(&self, info: &PipelineLayoutInfo<'_>) -> (layout:
        native::PipelineLayoutCreateInfo)
        requires
            info.well_formed(),
        ensures
            layout.flags == 0,
            layout.set_layouts@ == Seq::new(
                info.bind_group_layouts@.len(),
                |i: int| info.bind_group_layouts@[i].handle,
            ),
            layout.push_constant_ranges@ == Seq::new(
                info.push_constant_ranges@.len(),
                |i: int| native_push_constant_range(info.push_constant_ranges@[i]),
            ),
    {
        let mut set_layouts: Vec<u64> = Vec::new();
        let mut i: usize = 0;
        while i < info.bind_group_layouts.len()
            invariant
                i <= info.bind_group_layouts@.len(),
                set_layouts@ == Seq::new(i as nat, |k: int| info.bind_group_layouts@[k].handle),
            decreases info.bind_group_layouts@.len() - i,
        {
            set_layouts.push(info.bind_group_layouts[i].handle);
            i += 1;
            assert(set_layouts@ =~= Seq::new(i as nat, |k: int| info.bind_group_layouts@[k].handle));
        }
        let mut ranges: Vec<native::PushConstantRange> = Vec::new();
        let mut j: usize = 0;
        while j < info.push_constant_ranges.len()
            invariant
                info.well_formed(),
                j <= info.push_constant_ranges@.len(),
                ranges@ == Seq::new(
                    j as nat,
                    |k: int| native_push_constant_range(info.push_constant_ranges@[k]),
                ),
            decreases info.push_constant_ranges@.len() - j,
        {
            let range = &info.push_constant_ranges[j];
            assert(range.well_formed());
            ranges.push(
                native::PushConstantRange {
                    stage_flags: map_shader_stage(range.stages),
                    offset: range.range.start,
                    size: range.range.end - range.range.start,
                },
            );
            j += 1;
            assert(ranges@ =~= Seq::new(
                j as nat,
                |k: int| native_push_constant_range(info.push_constant_ranges@[k]),
            ));
        }
        native::PipelineLayoutCreateInfo {
            flags: 0,
            set_layouts,
            push_constant_ranges: ranges,
        }
    }

    /// What the native pipeline is created from. Every block of fixed
    /// function state is filled in from the descriptor; the depth and stencil
    /// state and the depth format are present exactly where the descriptor
    /// has a depth test.
    pub fn create_raster_pipeline<'a, F: Copy>(&self, info: &RasterPipelineInfo<'a, F>) -> (pipeline:
        native::GraphicsPipelineCreateInfo<'a, F>)
        requires
            info.well_formed(),
        ensures
            pipeline.layout == info.layout.handle,
            pipeline.stages@ == native_stages(info.vertex, info.fragment),
            pipeline.vertex_bindings@ == Seq::new(
                info.vertex_buffers@.len(),
                |i: int| native_vertex_binding(i, info.vertex_buffers@[i]),
            ),
            pipeline.vertex_attributes@ == native_vertex_attributes(
                info.vertex_buffers@,
                info.vertex_buffers@.len() as int,
            ),
            pipeline.input_assembly == native_input_assembly(info.primitive),
            pipeline.rasterization == native_rasterization(info.primitive, info.depth_stencil),
            pipeline.multisample == native_multisample(info.multisample),
            pipeline.depth_stencil == match info.depth_stencil {
                Some(state) => Some(native_depth_stencil(state)),
                None => None,
            },
            pipeline.color_blend_attachments@ == Seq::new(
                info.targets@.len(),
                |i: int| native_color_blend_attachment(info.targets@[i]),
            ),
            pipeline.color_attachment_formats@ == Seq::new(
                info.targets@.len(),
                |i: int| info.targets@[i].format.native_code(),
            ),
            pipeline.depth_attachment_format == match info.depth_stencil {
                Some(state) => Some(state.format.native_code()),
                None => None,
            },
            pipeline.dynamic_states@ == dynamic_states(),
            pipeline.viewport == unit_viewport(),
            pipeline.scissor == unit_rect(),
    {
        let mut stages: Vec<native::PipelineShaderStageCreateInfo<'a>> = Vec::new();
        stages.push(
            native::PipelineShaderStageCreateInfo {
                stage: native::SHADER_STAGE_VERTEX,
                module: info.vertex.module.handle,
                name: info.vertex.entry_point,
            },
        );
        if let Some(fragment) = &info.fragment {
            stages.push(
                native::PipelineShaderStageCreateInfo {
                    stage: native::SHADER_STAGE_FRAGMENT,
                    module: fragment.module.handle,
                    name: fragment.entry_point,
                },
            );
        }
        assert(stages@ =~= native_stages(info.vertex, info.fragment));
        let vertex_bindings = info.vertex_bindings();
        let vertex_attributes = info.vertex_attributes();
        let (color_blend_attachments, color_attachment_formats) = info.color_targets();
        let mut dynamic: Vec<i32> = Vec::new();
        dynamic.push(native::DYNAMIC_STATE_VIEWPORT);
        dynamic.push(native::DYNAMIC_STATE_SCISSOR);
        dynamic.push(native::DYNAMIC_STATE_BLEND_CONSTANTS);
        dynamic.push(native::DYNAMIC_STATE_STENCIL_REFERENCE);
        assert(dynamic@ =~= dynamic_states());
        let unit = native::Rect2D {
            offset: native::Offset2D { x: 0, y: 0 },
            extent: native::Extent2D { width: 1, height: 1 },
        };
        native::GraphicsPipelineCreateInfo {
            layout: info.layout.handle,
            stages,
            vertex_bindings,
            vertex_attributes,
            input_assembly: native::PipelineInputAssemblyStateCreateInfo {
                topology: map_topology(info.primitive.topology),
                primitive_restart_enable: info.primitive.strip_index_format.is_some(),
            },
            rasterization: info.rasterization_state(),
            multisample: multisample_state(&info.multisample),
            depth_stencil: match &info.depth_stencil {
                Some(state) => Some(
                    native::PipelineDepthStencilStateCreateInfo {
                        depth_test_enable: true,
                        depth_write_enable: state.write,
                        depth_compare_op: map_depth_function(state.depth_compare),
                        depth_bounds_test_enable: false,
                        stencil_test_enable: false,
                    },
                ),
                None => None,
            },
            color_blend_attachments,
            color_attachment_formats,
            depth_attachment_format: match &info.depth_stencil {
                Some(state) => Some(map_texture_format(state.format)),
                None => None,
            },
            dynamic_states: dynamic,
            viewport: native::Viewport { rect: unit, min_depth: 0, max_depth: 0 },
            scissor: unit,
        }
    }
}

} // verus!
