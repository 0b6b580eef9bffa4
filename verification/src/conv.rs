//! Portable descriptors as native values.
//!
//! Every function here is total on the values of its portable type, keeps no
//! state, and returns the native code, mask or structure that stands for its
//! argument.

use vstd::prelude::*;
use crate::flags::{BufferUsages, CullModeFlags, ShaderStages, TextureAspects, TextureUsages};
use crate::format::{native_format_layout, native_vertex_format, TextureFormat, VertexFormat};
use crate::native;
use crate::pipeline::{
    BlendComponent, BlendFactor, BlendOperation, DepthCompareOperator, FrontFace, LoadOp,
    PolygonMode, PrimitiveTopology, StoreOp,
};
use crate::render::{DepthAttachment, RenderAttachment};
use crate::types::{
    Extent2D, Extent3D, ImageSubresourceRange, PresentMode, SharingMode, TextureDimension,
    TextureViewDimension,
};

verus! {

/// `to` where every bit of `from` is set in `bits`, the empty mask where not.
pub open spec fn moved_flag(bits: u32, from: u32, to: u32) -> u32 {
    if bits & from == from {
        to
    } else {
        0
    }
}

fn move_flag(bits: u32, from: u32, to: u32) -> (mask: u32)
    ensures
        mask == moved_flag(bits, from, to),
{
    if bits & from == from {
        to
    } else {
        0
    }
}

pub fn map_extent2d(extent: Extent2D) -> (native: native::Extent2D)
    ensures
        native.width == extent.width,
        native.height == extent.height,
{
    native::Extent2D { width: extent.width, height: extent.height }
}

pub fn map_extent3d(extent: Extent3D) -> (native: native::Extent3D)
    ensures
        native.width == extent.width,
        native.height == extent.height,
        native.depth == extent.depth,
{
    native::Extent3D { width: extent.width, height: extent.height, depth: extent.depth }
}

pub open spec fn native_image_type(dim: TextureDimension) -> i32 {
    match dim {
        TextureDimension::D1 => native::IMAGE_TYPE_1D,
        TextureDimension::D2 => native::IMAGE_TYPE_2D,
        TextureDimension::D3 => native::IMAGE_TYPE_3D,
    }
}

pub fn map_texture_dimension(dim: TextureDimension) -> (image_type: i32)
    ensures
        image_type == native_image_type(dim),
{
    match dim {
        TextureDimension::D1 => native::IMAGE_TYPE_1D,
        TextureDimension::D2 => native::IMAGE_TYPE_2D,
        TextureDimension::D3 => native::IMAGE_TYPE_3D,
    }
}

/// The native range of a portable subresource range: the same levels and
/// layers, and the aspects by `native_aspects`.
pub open spec fn native_subresource_range(
    range: ImageSubresourceRange,
) -> native::ImageSubresourceRange {
    native::ImageSubresourceRange {
        aspect_mask: native_aspects(range.aspects),
        base_mip_level: range.base_mip_level,
        level_count: range.mip_level_count,
        base_array_layer: range.base_array_layer,
        layer_count: range.array_layer_count,
    }
}

pub fn map_texture_subresource_range(range: ImageSubresourceRange) -> (native:
    native::ImageSubresourceRange)
    ensures
        native == native_subresource_range(range),
{
    native::ImageSubresourceRange {
        aspect_mask: map_format_aspects(range.aspects),
        base_mip_level: range.base_mip_level,
        level_count: range.mip_level_count,
        base_array_layer: range.base_array_layer,
        layer_count: range.array_layer_count,
    }
}

/// The native aspect mask: one native bit for each aspect of the set.
pub open spec fn native_aspects(aspects: TextureAspects) -> u32 {
    moved_flag(aspects.bits, TextureAspects::COLOR, native::IMAGE_ASPECT_COLOR) | moved_flag(
        aspects.bits,
        TextureAspects::DEPTH,
        native::IMAGE_ASPECT_DEPTH,
    ) | moved_flag(aspects.bits, TextureAspects::STENCIL, native::IMAGE_ASPECT_STENCIL)
        | moved_flag(aspects.bits, TextureAspects::METADATA, native::IMAGE_ASPECT_METADATA)
}

pub fn map_format_aspects(aspects: TextureAspects) -> (mask: u32)
    ensures
        mask == native_aspects(aspects),
{
    let color: u32 = move_flag(aspects.bits, TextureAspects::COLOR, native::IMAGE_ASPECT_COLOR);
    let depth: u32 = move_flag(aspects.bits, TextureAspects::DEPTH, native::IMAGE_ASPECT_DEPTH);
    let stencil: u32 = move_flag(
        aspects.bits,
        TextureAspects::STENCIL,
        native::IMAGE_ASPECT_STENCIL,
    );
    let metadata: u32 = move_flag(
        aspects.bits,
        TextureAspects::METADATA,
        native::IMAGE_ASPECT_METADATA,
    );
    color | depth | stencil | metadata
}

/// The native aspect mask holds exactly the named bits of the portable one:
/// the two number the aspects alike.
pub proof fn lemma_aspects_keep_their_bits(aspects: TextureAspects)
    ensures
        native_aspects(aspects) == aspects.bits & TextureAspects::ALL_BITS,
{
    let bits = aspects.bits;
    assert((if bits & 1 == 1 {
        1u32
    } else {
        0u32
    }) | (if bits & 2 == 2 {
        2u32
    } else {
        0u32
    }) | (if bits & 4 == 4 {
        4u32
    } else {
        0u32
    }) | (if bits & 8 == 8 {
        8u32
    } else {
        0u32
    }) == bits & 0xf) by (bit_vector);
}

pub open spec fn native_image_view_type(dim: TextureViewDimension) -> i32 {
    match dim {
        TextureViewDimension::D1 => native::IMAGE_VIEW_TYPE_1D,
        TextureViewDimension::D2 => native::IMAGE_VIEW_TYPE_2D,
        TextureViewDimension::D3 => native::IMAGE_VIEW_TYPE_3D,
        TextureViewDimension::Cube => native::IMAGE_VIEW_TYPE_CUBE,
        TextureViewDimension::Array1D => native::IMAGE_VIEW_TYPE_1D_ARRAY,
        TextureViewDimension::Array2D => native::IMAGE_VIEW_TYPE_2D_ARRAY,
        TextureViewDimension::ArrayCube => native::IMAGE_VIEW_TYPE_CUBE_ARRAY,
    }
}

pub fn map_texture_view_dimension(dim: TextureViewDimension) -> (view_type: i32)
    ensures
        view_type == native_image_view_type(dim),
{
    match dim {
        TextureViewDimension::D1 => native::IMAGE_VIEW_TYPE_1D,
        TextureViewDimension::D2 => native::IMAGE_VIEW_TYPE_2D,
        TextureViewDimension::D3 => native::IMAGE_VIEW_TYPE_3D,
        TextureViewDimension::Cube => native::IMAGE_VIEW_TYPE_CUBE,
        TextureViewDimension::Array1D => native::IMAGE_VIEW_TYPE_1D_ARRAY,
        TextureViewDimension::Array2D => native::IMAGE_VIEW_TYPE_2D_ARRAY,
        TextureViewDimension::ArrayCube => native::IMAGE_VIEW_TYPE_CUBE_ARRAY,
    }
}

pub fn map_texture_format(format: TextureFormat) -> (code: i32)
    ensures
        code == format.native_code(),
{
    format.code()
}

pub open spec fn native_store_op(op: StoreOp) -> i32 {
    match op {
        StoreOp::Store => native::ATTACHMENT_STORE_OP_STORE,
        StoreOp::DontCare => native::ATTACHMENT_STORE_OP_DONT_CARE,
    }
}

pub fn map_store_op(op: StoreOp) -> (code: i32)
    ensures
        code == native_store_op(op),
{
    match op {
        StoreOp::Store => native::ATTACHMENT_STORE_OP_STORE,
        StoreOp::DontCare => native::ATTACHMENT_STORE_OP_DONT_CARE,
    }
}

pub open spec fn native_load_op<T>(op: LoadOp<T>) -> i32 {
    match op {
        LoadOp::Clear(_) => native::ATTACHMENT_LOAD_OP_CLEAR,
        LoadOp::Load => native::ATTACHMENT_LOAD_OP_LOAD,
        LoadOp::DontCare => native::ATTACHMENT_LOAD_OP_DONT_CARE,
    }
}

/// The value that a load operation clears to, if it clears.
pub open spec fn clear_payload<T>(op: LoadOp<T>) -> Option<T> {
    match op {
        LoadOp::Clear(value) => Some(value),
        _ => None,
    }
}

/// The native attachment of a color attachment: the view's image in the
/// attachment layout, with the load and store operations of the attachment
/// and, where it is cleared, the clear color.
pub open spec fn native_render_attachment<C>(
    info: RenderAttachment<C>,
) -> native::RenderingAttachmentInfo<C> {
    native::RenderingAttachmentInfo {
        image_view: info.view.handle,
        image_layout: native::IMAGE_LAYOUT_ATTACHMENT_OPTIMAL,
        load_op: native_load_op(info.ops.load),
        store_op: native_store_op(info.ops.store),
        clear_value: clear_payload(info.ops.load),
    }
}

pub fn map_render_attachment_info<C: Copy>(info: &RenderAttachment<C>) -> (attachment:
    native::RenderingAttachmentInfo<C>)
    ensures
        attachment == native_render_attachment(*info),
{
    let store_op: i32 = map_store_op(info.ops.store);
    match info.ops.load {
        LoadOp::Clear(value) => native::RenderingAttachmentInfo {
            image_view: info.view.handle,
            image_layout: native::IMAGE_LAYOUT_ATTACHMENT_OPTIMAL,
            load_op: native::ATTACHMENT_LOAD_OP_CLEAR,
            store_op,
            clear_value: Some(value),
        },
        LoadOp::Load => native::RenderingAttachmentInfo {
            image_view: info.view.handle,
            image_layout: native::IMAGE_LAYOUT_ATTACHMENT_OPTIMAL,
            load_op: native::ATTACHMENT_LOAD_OP_LOAD,
            store_op,
            clear_value: None,
        },
        LoadOp::DontCare => native::RenderingAttachmentInfo {
            image_view: info.view.handle,
            image_layout: native::IMAGE_LAYOUT_ATTACHMENT_OPTIMAL,
            load_op: native::ATTACHMENT_LOAD_OP_DONT_CARE,
            store_op,
            clear_value: None,
        },
    }
}

/// The native attachment of a depth attachment. Where it is cleared, depth is
/// cleared to the given value and stencil to zero.
pub open spec fn native_depth_attachment<D>(
    info: DepthAttachment<D>,
) -> native::RenderingAttachmentInfo<native::ClearDepthStencilValue<D>> {
    native::RenderingAttachmentInfo {
        image_view: info.view.handle,
        image_layout: native::IMAGE_LAYOUT_ATTACHMENT_OPTIMAL,
        load_op: native_load_op(info.ops.load),
        store_op: native_store_op(info.ops.store),
        clear_value: match info.ops.load {
            LoadOp::Clear(depth) => Some(native::ClearDepthStencilValue { depth, stencil: 0 }),
            _ => None,
        },
    }
}

pub fn map_depth_attachment_info<D: Copy>(info: &DepthAttachment<D>) -> (attachment:
    native::RenderingAttachmentInfo<native::ClearDepthStencilValue<D>>)
    ensures
        attachment == native_depth_attachment(*info),
{
    let store_op: i32 = map_store_op(info.ops.store);
    match info.ops.load {
        LoadOp::Clear(depth) => native::RenderingAttachmentInfo {
            image_view: info.view.handle,
            image_layout: native::IMAGE_LAYOUT_ATTACHMENT_OPTIMAL,
            load_op: native::ATTACHMENT_LOAD_OP_CLEAR,
            store_op,
            clear_value: Some(native::ClearDepthStencilValue { depth, stencil: 0 }),
        },
        LoadOp::Load => native::RenderingAttachmentInfo {
            image_view: info.view.handle,
            image_layout: native::IMAGE_LAYOUT_ATTACHMENT_OPTIMAL,
            load_op: native::ATTACHMENT_LOAD_OP_LOAD,
            store_op,
            clear_value: None,
        },
        LoadOp::DontCare => native::RenderingAttachmentInfo {
            image_view: info.view.handle,
            image_layout: native::IMAGE_LAYOUT_ATTACHMENT_OPTIMAL,
            load_op: native::ATTACHMENT_LOAD_OP_DONT_CARE,
            store_op,
            clear_value: None,
        },
    }
}

/// The native shader stage mask: one native bit for each stage of the set.
pub open spec fn native_shader_stages(stage: ShaderStages) -> u32 {
    moved_flag(stage.bits, ShaderStages::VERTEX, native::SHADER_STAGE_VERTEX) | moved_flag(
        stage.bits,
        ShaderStages::FRAGMENT,
        native::SHADER_STAGE_FRAGMENT,
    ) | moved_flag(stage.bits, ShaderStages::COMPUTE, native::SHADER_STAGE_COMPUTE)
}

pub fn map_shader_stage(stage: ShaderStages) -> (mask: u32)
    ensures
        mask == native_shader_stages(stage),
{
    let vertex: u32 = move_flag(stage.bits, ShaderStages::VERTEX, native::SHADER_STAGE_VERTEX);
    let fragment: u32 = move_flag(
        stage.bits,
        ShaderStages::FRAGMENT,
        native::SHADER_STAGE_FRAGMENT,
    );
    let compute: u32 = move_flag(stage.bits, ShaderStages::COMPUTE, native::SHADER_STAGE_COMPUTE);
    vertex | fragment | compute
}

/// A native stage bit is set exactly where the portable stage is, and no
/// other native bit is set.
pub proof fn lemma_shader_stages_bit_for_bit(stage: ShaderStages)
    ensures
        (native_shader_stages(stage) & native::SHADER_STAGE_VERTEX != 0) == (stage.bits
            & ShaderStages::VERTEX != 0),
        (native_shader_stages(stage) & native::SHADER_STAGE_FRAGMENT != 0) == (stage.bits
            & ShaderStages::FRAGMENT != 0),
        (native_shader_stages(stage) & native::SHADER_STAGE_COMPUTE != 0) == (stage.bits
            & ShaderStages::COMPUTE != 0),
        native_shader_stages(stage) & !(native::SHADER_STAGE_VERTEX
            | native::SHADER_STAGE_FRAGMENT | native::SHADER_STAGE_COMPUTE) == 0,
{
    let bits = stage.bits;
    let mask = (if bits & 1 == 1 {
        0x01u32
    } else {
        0u32
    }) | (if bits & 2 == 2 {
        0x10u32
    } else {
        0u32
    }) | (if bits & 4 == 4 {
        0x20u32
    } else {
        0u32
    });
    assert(native_shader_stages(stage) == mask);
    assert(((mask & 0x01 != 0) == (bits & 1 != 0)) && ((mask & 0x10 != 0) == (bits & 2 != 0)) && ((
    mask & 0x20 != 0) == (bits & 4 != 0)) && (mask & !(0x01u32 | 0x10u32 | 0x20u32) == 0))
        by (bit_vector)
        requires
            mask == (if bits & 1 == 1 {
                0x01u32
            } else {
                0u32
            }) | (if bits & 2 == 2 {
                0x10u32
            } else {
                0u32
            }) | (if bits & 4 == 4 {
                0x20u32
            } else {
                0u32
            }),
    ;
}

pub open spec fn native_topology(topology: PrimitiveTopology) -> i32 {
    match topology {
        PrimitiveTopology::PointList => native::PRIMITIVE_TOPOLOGY_POINT_LIST,
        PrimitiveTopology::LineList => native::PRIMITIVE_TOPOLOGY_LINE_LIST,
        PrimitiveTopology::LineStrip => native::PRIMITIVE_TOPOLOGY_LINE_STRIP,
        PrimitiveTopology::TriangleList => native::PRIMITIVE_TOPOLOGY_TRIANGLE_LIST,
        PrimitiveTopology::TriangleStrip => native::PRIMITIVE_TOPOLOGY_TRIANGLE_STRIP,
        PrimitiveTopology::TriangleFan => native::PRIMITIVE_TOPOLOGY_TRIANGLE_FAN,
        PrimitiveTopology::LineListWithAdjacency =>
            native::PRIMITIVE_TOPOLOGY_LINE_LIST_WITH_ADJACENCY,
        PrimitiveTopology::LineStripWithAdjacency =>
            native::PRIMITIVE_TOPOLOGY_LINE_STRIP_WITH_ADJACENCY,
        PrimitiveTopology::TriangleListWithAdjacency =>
            native::PRIMITIVE_TOPOLOGY_TRIANGLE_LIST_WITH_ADJACENCY,
        PrimitiveTopology::TriangleStripWithAdjacency =>
            native::PRIMITIVE_TOPOLOGY_TRIANGLE_STRIP_WITH_ADJACENCY,
        PrimitiveTopology::PatchList => native::PRIMITIVE_TOPOLOGY_PATCH_LIST,
    }
}

pub fn map_topology(topology: PrimitiveTopology) -> (code: i32)
    ensures
        code == native_topology(topology),
{
    match topology {
        PrimitiveTopology::PointList => native::PRIMITIVE_TOPOLOGY_POINT_LIST,
        PrimitiveTopology::LineList => native::PRIMITIVE_TOPOLOGY_LINE_LIST,
        PrimitiveTopology::LineStrip => native::PRIMITIVE_TOPOLOGY_LINE_STRIP,
        PrimitiveTopology::TriangleList => native::PRIMITIVE_TOPOLOGY_TRIANGLE_LIST,
        PrimitiveTopology::TriangleStrip => native::PRIMITIVE_TOPOLOGY_TRIANGLE_STRIP,
        PrimitiveTopology::TriangleFan => native::PRIMITIVE_TOPOLOGY_TRIANGLE_FAN,
        PrimitiveTopology::LineListWithAdjacency =>
            native::PRIMITIVE_TOPOLOGY_LINE_LIST_WITH_ADJACENCY,
        PrimitiveTopology::LineStripWithAdjacency =>
            native::PRIMITIVE_TOPOLOGY_LINE_STRIP_WITH_ADJACENCY,
        PrimitiveTopology::TriangleListWithAdjacency =>
            native::PRIMITIVE_TOPOLOGY_TRIANGLE_LIST_WITH_ADJACENCY,
        PrimitiveTopology::TriangleStripWithAdjacency =>
            native::PRIMITIVE_TOPOLOGY_TRIANGLE_STRIP_WITH_ADJACENCY,
        PrimitiveTopology::PatchList => native::PRIMITIVE_TOPOLOGY_PATCH_LIST,
    }
}

pub open spec fn native_polygon_mode(mode: PolygonMode) -> i32 {
    match mode {
        PolygonMode::Fill => native::POLYGON_MODE_FILL,
        PolygonMode::Line => native::POLYGON_MODE_LINE,
        PolygonMode::Point => native::POLYGON_MODE_POINT,
        PolygonMode::FillRectangleNV => native::POLYGON_MODE_FILL_RECTANGLE_NV,
    }
}

pub fn map_polygon_mode(mode: PolygonMode) -> (code: i32)
    ensures
        code == native_polygon_mode(mode),
{
    match mode {
        PolygonMode::Fill => native::POLYGON_MODE_FILL,
        PolygonMode::Line => native::POLYGON_MODE_LINE,
        PolygonMode::Point => native::POLYGON_MODE_POINT,
        PolygonMode::FillRectangleNV => native::POLYGON_MODE_FILL_RECTANGLE_NV,
    }
}

pub open spec fn native_front_face(front_face: FrontFace) -> i32 {
    match front_face {
        FrontFace::Clock => native::FRONT_FACE_CLOCKWISE,
        FrontFace::CounterClock => native::FRONT_FACE_COUNTER_CLOCKWISE,
    }
}

pub fn map_front_face(front_face: FrontFace) -> (code: i32)
    ensures
        code == native_front_face(front_face),
{
    match front_face {
        FrontFace::Clock => native::FRONT_FACE_CLOCKWISE,
        FrontFace::CounterClock => native::FRONT_FACE_COUNTER_CLOCKWISE,
    }
}

/// Whether a cull mode is one of the four that have a native cull mode: no
/// face, the front faces, the back faces, or both.
pub open spec fn is_cull_mode(face: CullModeFlags) -> bool {
    face.bits == CullModeFlags::NONE || face.bits == CullModeFlags::FRONT || face.bits
        == CullModeFlags::BACK || face.bits == CullModeFlags::FRONT_BACK
}

pub open spec fn native_cull_mode(face: CullModeFlags) -> u32 {
    if face.bits == CullModeFlags::FRONT {
        native::CULL_MODE_FRONT
    } else if face.bits == CullModeFlags::BACK {
        native::CULL_MODE_BACK
    } else if face.bits == CullModeFlags::FRONT_BACK {
        native::CULL_MODE_FRONT_AND_BACK
    } else {
        native::CULL_MODE_NONE
    }
}

/// Whether `face` is one of the four cull modes that `map_cull_face` takes.
pub fn has_native_cull_mode(face: CullModeFlags) -> (ok: bool)
    ensures
        ok == is_cull_mode(face),
{
    face.bits == CullModeFlags::NONE || face.bits == CullModeFlags::FRONT || face.bits
        == CullModeFlags::BACK || face.bits == CullModeFlags::FRONT_BACK
}

pub fn map_cull_face(face: CullModeFlags) -> (mask: u32)
    requires
        is_cull_mode(face),
    ensures
        mask == native_cull_mode(face),
{
    if face.bits == CullModeFlags::FRONT {
        native::CULL_MODE_FRONT
    } else if face.bits == CullModeFlags::BACK {
        native::CULL_MODE_BACK
    } else if face.bits == CullModeFlags::FRONT_BACK {
        native::CULL_MODE_FRONT_AND_BACK
    } else {
        native::CULL_MODE_NONE
    }
}

pub open spec fn native_blend_factor(factor: BlendFactor) -> i32 {
    match factor {
        BlendFactor::Zero => native::BLEND_FACTOR_ZERO,
        BlendFactor::One => native::BLEND_FACTOR_ONE,
        BlendFactor::Src => native::BLEND_FACTOR_SRC_COLOR,
        BlendFactor::OneMinusSrc => native::BLEND_FACTOR_ONE_MINUS_SRC_COLOR,
        BlendFactor::SrcAlpha => native::BLEND_FACTOR_SRC_ALPHA,
        BlendFactor::OneMinusSrcAlpha => native::BLEND_FACTOR_ONE_MINUS_SRC_ALPHA,
        BlendFactor::Dst => native::BLEND_FACTOR_DST_COLOR,
        BlendFactor::OneMinusDst => native::BLEND_FACTOR_ONE_MINUS_DST_COLOR,
        BlendFactor::DstAlpha => native::BLEND_FACTOR_DST_ALPHA,
        BlendFactor::OneMinusDstAlpha => native::BLEND_FACTOR_ONE_MINUS_DST_ALPHA,
        BlendFactor::SrcAlphaSaturated => native::BLEND_FACTOR_SRC_ALPHA_SATURATE,
        BlendFactor::Constant => native::BLEND_FACTOR_CONSTANT_COLOR,
        BlendFactor::OneMinusConstant => native::BLEND_FACTOR_ONE_MINUS_CONSTANT_COLOR,
    }
}

fn map_blend_factor(factor: BlendFactor) -> (code: i32)
    ensures
        code == native_blend_factor(factor),
{
    match factor {
        BlendFactor::Zero => native::BLEND_FACTOR_ZERO,
        BlendFactor::One => native::BLEND_FACTOR_ONE,
        BlendFactor::Src => native::BLEND_FACTOR_SRC_COLOR,
        BlendFactor::OneMinusSrc => native::BLEND_FACTOR_ONE_MINUS_SRC_COLOR,
        BlendFactor::SrcAlpha => native::BLEND_FACTOR_SRC_ALPHA,
        BlendFactor::OneMinusSrcAlpha => native::BLEND_FACTOR_ONE_MINUS_SRC_ALPHA,
        BlendFactor::Dst => native::BLEND_FACTOR_DST_COLOR,
        BlendFactor::OneMinusDst => native::BLEND_FACTOR_ONE_MINUS_DST_COLOR,
        BlendFactor::DstAlpha => native::BLEND_FACTOR_DST_ALPHA,
        BlendFactor::OneMinusDstAlpha => native::BLEND_FACTOR_ONE_MINUS_DST_ALPHA,
        BlendFactor::SrcAlphaSaturated => native::BLEND_FACTOR_SRC_ALPHA_SATURATE,
        BlendFactor::Constant => native::BLEND_FACTOR_CONSTANT_COLOR,
        BlendFactor::OneMinusConstant => native::BLEND_FACTOR_ONE_MINUS_CONSTANT_COLOR,
    }
}

pub open spec fn native_blend_op(operation: BlendOperation) -> i32 {
    match operation {
        BlendOperation::Add => native::BLEND_OP_ADD,
        BlendOperation::Subtract => native::BLEND_OP_SUBTRACT,
        BlendOperation::ReverseSubtract => native::BLEND_OP_REVERSE_SUBTRACT,
        BlendOperation::Min => native::BLEND_OP_MIN,
        BlendOperation::Max => native::BLEND_OP_MAX,
    }
}

fn map_blend_op(operation: BlendOperation) -> (code: i32)
    ensures
        code == native_blend_op(operation),
{
    match operation {
        BlendOperation::Add => native::BLEND_OP_ADD,
        BlendOperation::Subtract => native::BLEND_OP_SUBTRACT,
        BlendOperation::ReverseSubtract => native::BLEND_OP_REVERSE_SUBTRACT,
        BlendOperation::Min => native::BLEND_OP_MIN,
        BlendOperation::Max => native::BLEND_OP_MAX,
    }
}

/// The native operation, source factor and destination factor of a blend
/// component, in this order.
pub fn map_blend_component(component: &BlendComponent) -> (native: (i32, i32, i32))
    ensures
        native.0 == native_blend_op(component.operation),
        native.1 == native_blend_factor(component.src_factor),
        native.2 == native_blend_factor(component.dst_factor),
{
    let op: i32 = map_blend_op(component.operation);
    let src: i32 = map_blend_factor(component.src_factor);
    let dst: i32 = map_blend_factor(component.dst_factor);
    (op, src, dst)
}

/// Distinct blend factors have distinct native codes, and so have distinct
/// blend operations: the native state tells which portable state it came
/// from.
pub proof fn lemma_blend_codes_injective(a: BlendComponent, b: BlendComponent)
    requires
        native_blend_op(a.operation) == native_blend_op(b.operation),
        native_blend_factor(a.src_factor) == native_blend_factor(b.src_factor),
        native_blend_factor(a.dst_factor) == native_blend_factor(b.dst_factor),
    ensures
        a == b,
{
}

pub fn map_vertex_format(vertex_format: VertexFormat) -> (code: i32)
    ensures
        code == native_vertex_format(vertex_format),
        native_format_layout(code) == Some(vertex_format.layout()),
{
    match vertex_format {
        VertexFormat::Uint8x2 => 20,
        VertexFormat::Uint8x4 => 41,
        VertexFormat::Sint8x2 => 21,
        VertexFormat::Sint8x4 => 42,
        VertexFormat::Unorm8x2 => 16,
        VertexFormat::Unorm8x4 => 37,
        VertexFormat::Snorm8x2 => 17,
        VertexFormat::Snorm8x4 => 38,
        VertexFormat::Uint16x2 => 81,
        VertexFormat::Uint16x4 => 95,
        VertexFormat::Sint16x2 => 82,
        VertexFormat::Sint16x4 => 96,
        VertexFormat::Unorm16x2 => 77,
        VertexFormat::Unorm16x4 => 91,
        VertexFormat::Snorm16x2 => 78,
        VertexFormat::Snorm16x4 => 92,
        VertexFormat::Float16x2 => 83,
        VertexFormat::Float16x4 => 97,
        VertexFormat::Float32 => 100,
        VertexFormat::Float32x2 => 103,
        VertexFormat::Float32x3 => 106,
        VertexFormat::Float32x4 => 109,
        VertexFormat::Uint32 => 98,
        VertexFormat::Uint32x2 => 101,
        VertexFormat::Uint32x3 => 104,
        VertexFormat::Uint32x4 => 107,
        VertexFormat::Sint32 => 99,
        VertexFormat::Sint32x2 => 102,
        VertexFormat::Sint32x3 => 105,
        VertexFormat::Sint32x4 => 108,
        VertexFormat::Float64 => 112,
        VertexFormat::Float64x2 => 115,
        VertexFormat::Float64x3 => 118,
        VertexFormat::Float64x4 => 121,
    }
}

/// The native buffer usage mask. Copy source and destination, uniform, index,
/// vertex and indirect usage each have a native bit. A buffer is a native
/// storage buffer where it is both a read-only and a read-write storage
/// buffer. Mapping has no native bit: it decides the memory of the buffer.
pub open spec fn native_buffer_usage(usage: BufferUsages) -> u32 {
    moved_flag(usage.bits, BufferUsages::COPY_SRC, native::BUFFER_USAGE_TRANSFER_SRC)
        | moved_flag(usage.bits, BufferUsages::COPY_DST, native::BUFFER_USAGE_TRANSFER_DST)
        | moved_flag(usage.bits, BufferUsages::UNIFORM, native::BUFFER_USAGE_UNIFORM_BUFFER)
        | moved_flag(
        usage.bits,
        BufferUsages::STORAGE_READ | BufferUsages::STORAGE_READ_WRITE,
        native::BUFFER_USAGE_STORAGE_BUFFER,
    ) | moved_flag(usage.bits, BufferUsages::INDEX, native::BUFFER_USAGE_INDEX_BUFFER)
        | moved_flag(usage.bits, BufferUsages::VERTEX, native::BUFFER_USAGE_VERTEX_BUFFER)
        | moved_flag(usage.bits, BufferUsages::INDIRECT, native::BUFFER_USAGE_INDIRECT_BUFFER)
}

pub fn map_buffer_usage(usage: BufferUsages) -> (mask: u32)
    ensures
        mask == native_buffer_usage(usage),
{
    let copy_src: u32 = move_flag(
        usage.bits,
        BufferUsages::COPY_SRC,
        native::BUFFER_USAGE_TRANSFER_SRC,
    );
    let copy_dst: u32 = move_flag(
        usage.bits,
        BufferUsages::COPY_DST,
        native::BUFFER_USAGE_TRANSFER_DST,
    );
    let uniform: u32 = move_flag(
        usage.bits,
        BufferUsages::UNIFORM,
        native::BUFFER_USAGE_UNIFORM_BUFFER,
    );
    let storage: u32 = move_flag(
        usage.bits,
        BufferUsages::STORAGE_READ | BufferUsages::STORAGE_READ_WRITE,
        native::BUFFER_USAGE_STORAGE_BUFFER,
    );
    let index: u32 = move_flag(usage.bits, BufferUsages::INDEX, native::BUFFER_USAGE_INDEX_BUFFER);
    let vertex: u32 = move_flag(
        usage.bits,
        BufferUsages::VERTEX,
        native::BUFFER_USAGE_VERTEX_BUFFER,
    );
    let indirect: u32 = move_flag(
        usage.bits,
        BufferUsages::INDIRECT,
        native::BUFFER_USAGE_INDIRECT_BUFFER,
    );
    copy_src | copy_dst | uniform | storage | index | vertex | indirect
}

/// Every native usage bit is set exactly where the buffer has the usage, the
/// storage bit exactly where it has both storage usages, and no other bit is
/// set.
pub proof fn lemma_buffer_usage_bit_for_bit(usage: BufferUsages)
    ensures
        (native_buffer_usage(usage) & native::BUFFER_USAGE_TRANSFER_SRC != 0) == (usage.bits
            & BufferUsages::COPY_SRC != 0),
        (native_buffer_usage(usage) & native::BUFFER_USAGE_TRANSFER_DST != 0) == (usage.bits
            & BufferUsages::COPY_DST != 0),
        (native_buffer_usage(usage) & native::BUFFER_USAGE_UNIFORM_BUFFER != 0) == (usage.bits
            & BufferUsages::UNIFORM != 0),
        (native_buffer_usage(usage) & native::BUFFER_USAGE_STORAGE_BUFFER != 0) == (usage.bits
            & BufferUsages::STORAGE_READ != 0 && usage.bits & BufferUsages::STORAGE_READ_WRITE
            != 0),
        (native_buffer_usage(usage) & native::BUFFER_USAGE_INDEX_BUFFER != 0) == (usage.bits
            & BufferUsages::INDEX != 0),
        (native_buffer_usage(usage) & native::BUFFER_USAGE_VERTEX_BUFFER != 0) == (usage.bits
            & BufferUsages::VERTEX != 0),
        (native_buffer_usage(usage) & native::BUFFER_USAGE_INDIRECT_BUFFER != 0) == (usage.bits
            & BufferUsages::INDIRECT != 0),
        native_buffer_usage(usage) & !0x1f3u32 == 0,
{
    let bits = usage.bits;
    let mask = (if bits & 0x4 == 0x4 {
        0x1u32
    } else {
        0u32
    }) | (if bits & 0x8 == 0x8 {
        0x2u32
    } else {
        0u32
    }) | (if bits & 0x40 == 0x40 {
        0x10u32
    } else {
        0u32
    }) | (if bits & 0x180 == 0x180 {
        0x20u32
    } else {
        0u32
    }) | (if bits & 0x10 == 0x10 {
        0x40u32
    } else {
        0u32
    }) | (if bits & 0x20 == 0x20 {
        0x80u32
    } else {
        0u32
    }) | (if bits & 0x200 == 0x200 {
        0x100u32
    } else {
        0u32
    });
    assert(0x80u32 | 0x100u32 == 0x180u32) by (bit_vector);
    assert(native_buffer_usage(usage) == mask);
    assert(((mask & 0x1 != 0) == (bits & 0x4 != 0)) && ((mask & 0x2 != 0) == (bits & 0x8 != 0))
        && ((mask & 0x10 != 0) == (bits & 0x40 != 0)) && ((mask & 0x20 != 0) == (bits & 0x80 != 0
        && bits & 0x100 != 0)) && ((mask & 0x40 != 0) == (bits & 0x10 != 0)) && ((mask & 0x80 != 0)
        == (bits & 0x20 != 0)) && ((mask & 0x100 != 0) == (bits & 0x200 != 0)) && (mask & !0x1f3u32
        == 0)) by (bit_vector)
        requires
            mask == (if bits & 0x4 == 0x4 {
                0x1u32
            } else {
                0u32
            }) | (if bits & 0x8 == 0x8 {
                0x2u32
            } else {
                0u32
            }) | (if bits & 0x40 == 0x40 {
                0x10u32
            } else {
                0u32
            }) | (if bits & 0x180 == 0x180 {
                0x20u32
            } else {
                0u32
            }) | (if bits & 0x10 == 0x10 {
                0x40u32
            } else {
                0u32
            }) | (if bits & 0x20 == 0x20 {
                0x80u32
            } else {
                0u32
            }) | (if bits & 0x200 == 0x200 {
                0x100u32
            } else {
                0u32
            }),
    ;
}

pub open spec fn native_sharing_mode(sharing: SharingMode) -> i32 {
    match sharing {
        SharingMode::Exclusive => native::SHARING_MODE_EXCLUSIVE,
        SharingMode::Concurrent => native::SHARING_MODE_CONCURRENT,
    }
}

pub fn map_sharing_mode(sharing: SharingMode) -> (code: i32)
    ensures
        code == native_sharing_mode(sharing),
{
    match sharing {
        SharingMode::Exclusive => native::SHARING_MODE_EXCLUSIVE,
        SharingMode::Concurrent => native::SHARING_MODE_CONCURRENT,
    }
}

/// The native image usage mask is the mask of the set.
pub fn map_texture_usages(usages: TextureUsages) -> (mask: u32)
    ensures
        mask == usages.bits,
{
    usages.bits
}

pub fn map_present_mode(present_mode: PresentMode) -> (code: i32)
    ensures
        code == present_mode.native_code(),
{
    match present_mode {
        PresentMode::Immediate => 0,
        PresentMode::Mailbox => 1,
        PresentMode::Fifo => 2,
        PresentMode::FifoRelaxed => 3,
    }
}

pub open spec fn native_compare_op(depth_fn: DepthCompareOperator) -> i32 {
    match depth_fn {
        DepthCompareOperator::Never => native::COMPARE_OP_NEVER,
        DepthCompareOperator::Less => native::COMPARE_OP_LESS,
        DepthCompareOperator::LessEqual => native::COMPARE_OP_LESS_OR_EQUAL,
        DepthCompareOperator::Equal => native::COMPARE_OP_EQUAL,
        DepthCompareOperator::GreaterEqual => native::COMPARE_OP_GREATER_OR_EQUAL,
        DepthCompareOperator::Greater => native::COMPARE_OP_GREATER,
        DepthCompareOperator::NotEqual => native::COMPARE_OP_NOT_EQUAL,
        DepthCompareOperator::Always => native::COMPARE_OP_ALWAYS,
    }
}

pub fn map_depth_function(depth_fn: DepthCompareOperator) -> (code: i32)
    ensures
        code == native_compare_op(depth_fn),
{
    match depth_fn {
        DepthCompareOperator::Never => native::COMPARE_OP_NEVER,
        DepthCompareOperator::Less => native::COMPARE_OP_LESS,
        DepthCompareOperator::LessEqual => native::COMPARE_OP_LESS_OR_EQUAL,
        DepthCompareOperator::Equal => native::COMPARE_OP_EQUAL,
        DepthCompareOperator::GreaterEqual => native::COMPARE_OP_GREATER_OR_EQUAL,
        DepthCompareOperator::Greater => native::COMPARE_OP_GREATER,
        DepthCompareOperator::NotEqual => native::COMPARE_OP_NOT_EQUAL,
        DepthCompareOperator::Always => native::COMPARE_OP_ALWAYS,
    }
}

} // verus!
