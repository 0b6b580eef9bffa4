//! Numeric codes of the native graphics API.
//!
//! The native API identifies every enumerant by a signed 32-bit code and every
//! flag by one bit of a 32-bit mask. The values below are part of its binary
//! interface; the library hands them to the driver unchanged.

use vstd::prelude::*;

verus! {

// Image dimensionality.
pub const IMAGE_TYPE_1D: i32 = 0;
pub const IMAGE_TYPE_2D: i32 = 1;
pub const IMAGE_TYPE_3D: i32 = 2;

// Image view dimensionality.
pub const IMAGE_VIEW_TYPE_1D: i32 = 0;
pub const IMAGE_VIEW_TYPE_2D: i32 = 1;
pub const IMAGE_VIEW_TYPE_3D: i32 = 2;
pub const IMAGE_VIEW_TYPE_CUBE: i32 = 3;
pub const IMAGE_VIEW_TYPE_1D_ARRAY: i32 = 4;
pub const IMAGE_VIEW_TYPE_2D_ARRAY: i32 = 5;
pub const IMAGE_VIEW_TYPE_CUBE_ARRAY: i32 = 6;

// Image tiling.
pub const IMAGE_TILING_OPTIMAL: i32 = 0;

// Image layouts.
pub const IMAGE_LAYOUT_UNDEFINED: i32 = 0;
pub const IMAGE_LAYOUT_GENERAL: i32 = 1;
pub const IMAGE_LAYOUT_COLOR_ATTACHMENT_OPTIMAL: i32 = 2;
pub const IMAGE_LAYOUT_DEPTH_STENCIL_ATTACHMENT_OPTIMAL: i32 = 3;
pub const IMAGE_LAYOUT_DEPTH_STENCIL_READ_ONLY_OPTIMAL: i32 = 4;
pub const IMAGE_LAYOUT_SHADER_READ_ONLY_OPTIMAL: i32 = 5;
pub const IMAGE_LAYOUT_TRANSFER_SRC_OPTIMAL: i32 = 6;
pub const IMAGE_LAYOUT_TRANSFER_DST_OPTIMAL: i32 = 7;
pub const IMAGE_LAYOUT_PREINITIALIZED: i32 = 8;
pub const IMAGE_LAYOUT_PRESENT_SRC: i32 = 1_000_001_002;
pub const IMAGE_LAYOUT_ATTACHMENT_OPTIMAL: i32 = 1_000_314_001;

// Image aspects (mask bits).
pub const IMAGE_ASPECT_COLOR: u32 = 0x1;
pub const IMAGE_ASPECT_DEPTH: u32 = 0x2;
pub const IMAGE_ASPECT_STENCIL: u32 = 0x4;
pub const IMAGE_ASPECT_METADATA: u32 = 0x8;

// Attachment load and store operations.
pub const ATTACHMENT_LOAD_OP_LOAD: i32 = 0;
pub const ATTACHMENT_LOAD_OP_CLEAR: i32 = 1;
pub const ATTACHMENT_LOAD_OP_DONT_CARE: i32 = 2;
pub const ATTACHMENT_STORE_OP_STORE: i32 = 0;
pub const ATTACHMENT_STORE_OP_DONT_CARE: i32 = 1;

// Shader stages (mask bits).
pub const SHADER_STAGE_VERTEX: u32 = 0x01;
pub const SHADER_STAGE_FRAGMENT: u32 = 0x10;
pub const SHADER_STAGE_COMPUTE: u32 = 0x20;

// Primitive topologies.
pub const PRIMITIVE_TOPOLOGY_POINT_LIST: i32 = 0;
pub const PRIMITIVE_TOPOLOGY_LINE_LIST: i32 = 1;
pub const PRIMITIVE_TOPOLOGY_LINE_STRIP: i32 = 2;
pub const PRIMITIVE_TOPOLOGY_TRIANGLE_LIST: i32 = 3;
pub const PRIMITIVE_TOPOLOGY_TRIANGLE_STRIP: i32 = 4;
pub const PRIMITIVE_TOPOLOGY_TRIANGLE_FAN: i32 = 5;
pub const PRIMITIVE_TOPOLOGY_LINE_LIST_WITH_ADJACENCY: i32 = 6;
pub const PRIMITIVE_TOPOLOGY_LINE_STRIP_WITH_ADJACENCY: i32 = 7;
pub const PRIMITIVE_TOPOLOGY_TRIANGLE_LIST_WITH_ADJACENCY: i32 = 8;
pub const PRIMITIVE_TOPOLOGY_TRIANGLE_STRIP_WITH_ADJACENCY: i32 = 9;
pub const PRIMITIVE_TOPOLOGY_PATCH_LIST: i32 = 10;

// Polygon modes.
pub const POLYGON_MODE_FILL: i32 = 0;
pub const POLYGON_MODE_LINE: i32 = 1;
pub const POLYGON_MODE_POINT: i32 = 2;
pub const POLYGON_MODE_FILL_RECTANGLE_NV: i32 = 1_000_153_000;

// Winding order of front faces.
pub const FRONT_FACE_COUNTER_CLOCKWISE: i32 = 0;
pub const FRONT_FACE_CLOCKWISE: i32 = 1;

// Face culling (mask bits).
pub const CULL_MODE_NONE: u32 = 0x0;
pub const CULL_MODE_FRONT: u32 = 0x1;
pub const CULL_MODE_BACK: u32 = 0x2;
pub const CULL_MODE_FRONT_AND_BACK: u32 = 0x3;

// Blend factors.
pub const BLEND_FACTOR_ZERO: i32 = 0;
pub const BLEND_FACTOR_ONE: i32 = 1;
pub const BLEND_FACTOR_SRC_COLOR: i32 = 2;
pub const BLEND_FACTOR_ONE_MINUS_SRC_COLOR: i32 = 3;
pub const BLEND_FACTOR_DST_COLOR: i32 = 4;
pub const BLEND_FACTOR_ONE_MINUS_DST_COLOR: i32 = 5;
pub const BLEND_FACTOR_SRC_ALPHA: i32 = 6;
pub const BLEND_FACTOR_ONE_MINUS_SRC_ALPHA: i32 = 7;
pub const BLEND_FACTOR_DST_ALPHA: i32 = 8;
pub const BLEND_FACTOR_ONE_MINUS_DST_ALPHA: i32 = 9;
pub const BLEND_FACTOR_CONSTANT_COLOR: i32 = 10;
pub const BLEND_FACTOR_ONE_MINUS_CONSTANT_COLOR: i32 = 11;
pub const BLEND_FACTOR_SRC_ALPHA_SATURATE: i32 = 14;

// Blend operations.
pub const BLEND_OP_ADD: i32 = 0;
pub const BLEND_OP_SUBTRACT: i32 = 1;
pub const BLEND_OP_REVERSE_SUBTRACT: i32 = 2;
pub const BLEND_OP_MIN: i32 = 3;
pub const BLEND_OP_MAX: i32 = 4;

// Buffer usage (mask bits).
pub const BUFFER_USAGE_TRANSFER_SRC: u32 = 0x001;
pub const BUFFER_USAGE_TRANSFER_DST: u32 = 0x002;
pub const BUFFER_USAGE_UNIFORM_BUFFER: u32 = 0x010;
pub const BUFFER_USAGE_STORAGE_BUFFER: u32 = 0x020;
pub const BUFFER_USAGE_INDEX_BUFFER: u32 = 0x040;
pub const BUFFER_USAGE_VERTEX_BUFFER: u32 = 0x080;
pub const BUFFER_USAGE_INDIRECT_BUFFER: u32 = 0x100;

// Queue sharing modes.
pub const SHARING_MODE_EXCLUSIVE: i32 = 0;
pub const SHARING_MODE_CONCURRENT: i32 = 1;

// Comparison operators.
pub const COMPARE_OP_NEVER: i32 = 0;
pub const COMPARE_OP_LESS: i32 = 1;
pub const COMPARE_OP_EQUAL: i32 = 2;
pub const COMPARE_OP_LESS_OR_EQUAL: i32 = 3;
pub const COMPARE_OP_GREATER: i32 = 4;
pub const COMPARE_OP_NOT_EQUAL: i32 = 5;
pub const COMPARE_OP_GREATER_OR_EQUAL: i32 = 6;
pub const COMPARE_OP_ALWAYS: i32 = 7;

// Vertex input rates.
pub const VERTEX_INPUT_RATE_VERTEX: i32 = 0;
pub const VERTEX_INPUT_RATE_INSTANCE: i32 = 1;

// Pipeline state that is set while recording instead of at creation.
pub const DYNAMIC_STATE_VIEWPORT: i32 = 0;
pub const DYNAMIC_STATE_SCISSOR: i32 = 1;
pub const DYNAMIC_STATE_BLEND_CONSTANTS: i32 = 4;
pub const DYNAMIC_STATE_STENCIL_REFERENCE: i32 = 8;

// Conservative rasterization modes.
pub const CONSERVATIVE_RASTERIZATION_MODE_OVERESTIMATE: i32 = 1;

// Pipeline bind points.
pub const PIPELINE_BIND_POINT_GRAPHICS: i32 = 0;

// Command buffer levels, usage hints and pool flags.
pub const COMMAND_BUFFER_LEVEL_PRIMARY: i32 = 0;
pub const COMMAND_BUFFER_LEVEL_SECONDARY: i32 = 1;
pub const COMMAND_BUFFER_USAGE_ONE_TIME_SUBMIT: u32 = 0x1;
pub const COMMAND_POOL_CREATE_RESET_COMMAND_BUFFER: u32 = 0x2;

// Pipeline stages (mask bits).
pub const PIPELINE_STAGE_ALL_COMMANDS: u32 = 0x1_0000;

// Capabilities of a queue family (mask bits).
pub const QUEUE_GRAPHICS: u32 = 0x1;
pub const QUEUE_COMPUTE: u32 = 0x2;
pub const QUEUE_TRANSFER: u32 = 0x4;

/// The handle value that stands for "no object".
pub const NULL_HANDLE: u64 = 0;

// Usage classes of the device-wide sub-allocator (mask bits).
pub const ALLOC_USAGE_FAST_DEVICE_ACCESS: u8 = 0x01;
pub const ALLOC_USAGE_HOST_ACCESS: u8 = 0x02;
pub const ALLOC_USAGE_DOWNLOAD: u8 = 0x04;
pub const ALLOC_USAGE_UPLOAD: u8 = 0x08;

/// Width and height of a rectangle of texels.
#[derive(Clone, Copy, Debug, PartialEq, Eq, Structural)]
pub struct Extent2D {
    pub width: u32,
    pub height: u32,
}

/// Width, height and depth of a box of texels.
#[derive(Clone, Copy, Debug, PartialEq, Eq, Structural)]
pub struct Extent3D {
    pub width: u32,
    pub height: u32,
    pub depth: u32,
}

#[derive(Clone, Copy, Debug, PartialEq, Eq, Structural)]
pub struct Offset2D {
    pub x: i32,
    pub y: i32,
}

#[derive(Clone, Copy, Debug, PartialEq, Eq, Structural)]
pub struct Rect2D {
    pub offset: Offset2D,
    pub extent: Extent2D,
}

/// A viewport: the rectangle that is drawn into, and the range of depths,
/// both in whole numbers. The native API takes all six as floating point
/// numbers.
#[derive(Clone, Copy, Debug, PartialEq, Eq, Structural)]
pub struct Viewport {
    pub rect: Rect2D,
    pub min_depth: u32,
    pub max_depth: u32,
}

/// The part of an image that a view or a barrier covers.
#[derive(Clone, Copy, Debug, PartialEq, Eq, Structural)]
pub struct ImageSubresourceRange {
    pub aspect_mask: u32,
    pub base_mip_level: u32,
    pub level_count: u32,
    pub base_array_layer: u32,
    pub layer_count: u32,
}

/// The value that a depth and stencil attachment is cleared to.
#[derive(Clone, Copy, Debug, PartialEq)]
pub struct ClearDepthStencilValue<D> {
    pub depth: D,
    pub stencil: u32,
}

/// One attachment of a dynamic render pass. `clear_value` is present where
/// the load operation clears.
#[derive(Clone, Copy, Debug, PartialEq)]
pub struct RenderingAttachmentInfo<V> {
    pub image_view: u64,
    pub image_layout: i32,
    pub load_op: i32,
    pub store_op: i32,
    pub clear_value: Option<V>,
}

/// A range of push-constant bytes and the native stages that see it.
#[derive(Clone, Copy, Debug, PartialEq, Eq, Structural)]
pub struct PushConstantRange {
    pub stage_flags: u32,
    pub offset: u32,
    pub size: u32,
}

/// What a pipeline layout is created from.
#[derive(Debug, PartialEq, Eq)]
pub struct PipelineLayoutCreateInfo {
    pub flags: u32,
    pub set_layouts: Vec<u64>,
    pub push_constant_ranges: Vec<PushConstantRange>,
}

#[derive(Clone, Copy, Debug, PartialEq, Eq, Structural)]
pub struct VertexInputBindingDescription {
    pub binding: u32,
    pub stride: u32,
    pub input_rate: i32,
}

#[derive(Clone, Copy, Debug, PartialEq, Eq, Structural)]
pub struct VertexInputAttributeDescription {
    pub location: u32,
    pub binding: u32,
    pub format: i32,
    pub offset: u32,
}

/// One shader stage of a pipeline: the stage, the module, and the name of the
/// entry point in it.
#[derive(Clone, Copy, Debug, PartialEq, Eq)]
pub struct PipelineShaderStageCreateInfo<'a> {
    pub stage: u32,
    pub module: u64,
    pub name: &'a str,
}

#[derive(Clone, Copy, Debug, PartialEq, Eq, Structural)]
pub struct PipelineInputAssemblyStateCreateInfo {
    pub topology: i32,
    pub primitive_restart_enable: bool,
}

/// Multisampling of a pipeline. The coverage mask is held as two words, the
/// low one first.
#[derive(Clone, Copy, Debug, PartialEq, Eq, Structural)]
pub struct PipelineMultisampleStateCreateInfo {
    pub rasterization_samples: u32,
    pub alpha_to_coverage_enable: bool,
    pub sample_mask_low: u32,
    pub sample_mask_high: u32,
}

#[derive(Clone, Copy, Debug, PartialEq)]
pub struct DepthBias<F> {
    pub constant_factor: F,
    pub clamp: F,
    pub slope_factor: F,
}

/// Rasterization of a pipeline. An absent field leaves the native default in
/// place: no culling, no depth bias, no conservative rasterization, and depth
/// clipping as the native API clips by default.
#[derive(Clone, Copy, Debug, PartialEq)]
pub struct PipelineRasterizationStateCreateInfo<F> {
    pub polygon_mode: i32,
    pub front_face: i32,
    pub line_width: F,
    pub cull_mode: Option<u32>,
    pub depth_bias: Option<DepthBias<F>>,
    pub conservative_rasterization_mode: Option<i32>,
    pub depth_clip_enable: Option<bool>,
}

#[derive(Clone, Copy, Debug, PartialEq, Eq, Structural)]
pub struct PipelineDepthStencilStateCreateInfo {
    pub depth_test_enable: bool,
    pub depth_write_enable: bool,
    pub depth_compare_op: i32,
    pub depth_bounds_test_enable: bool,
    pub stencil_test_enable: bool,
}

#[derive(Clone, Copy, Debug, PartialEq, Eq, Structural)]
pub struct PipelineColorBlendAttachmentState {
    pub blend_enable: bool,
    pub src_color_blend_factor: i32,
    pub dst_color_blend_factor: i32,
    pub color_blend_op: i32,
    pub src_alpha_blend_factor: i32,
    pub dst_alpha_blend_factor: i32,
    pub alpha_blend_op: i32,
    pub color_write_mask: u32,
}

/// What a graphics pipeline for dynamic rendering is created from. There is
/// no render pass object: the formats of the attachments stand in its place.
#[derive(Debug, PartialEq)]
pub struct GraphicsPipelineCreateInfo<'a, F> {
    pub layout: u64,
    pub stages: Vec<PipelineShaderStageCreateInfo<'a>>,
    pub vertex_bindings: Vec<VertexInputBindingDescription>,
    pub vertex_attributes: Vec<VertexInputAttributeDescription>,
    pub input_assembly: PipelineInputAssemblyStateCreateInfo,
    pub rasterization: PipelineRasterizationStateCreateInfo<F>,
    pub multisample: PipelineMultisampleStateCreateInfo,
    pub depth_stencil: Option<PipelineDepthStencilStateCreateInfo>,
    pub color_blend_attachments: Vec<PipelineColorBlendAttachmentState>,
    pub color_attachment_formats: Vec<i32>,
    pub depth_attachment_format: Option<i32>,
    pub dynamic_states: Vec<i32>,
    /// Stands in for the viewport, which is set while recording.
    pub viewport: Viewport,
    /// Stands in for the scissor, which is set while recording.
    pub scissor: Rect2D,
}

/// What the native API reports of one queue family of a physical device.
#[derive(Clone, Copy, Debug, PartialEq, Eq, Structural)]
pub struct QueueFamilyProperties {
    pub queue_flags: u32,
    pub queue_count: u32,
}

/// The queues to create in one family: as many as there are priorities.
#[derive(Debug, PartialEq)]
pub struct DeviceQueueCreateInfo<P> {
    pub flags: u32,
    pub queue_family_index: u32,
    pub queue_count: u32,
    pub queue_priorities: Vec<P>,
}

/// What a command pool is created from.
#[derive(Clone, Copy, Debug, PartialEq, Eq, Structural)]
pub struct CommandPoolCreateInfo {
    pub flags: u32,
    pub queue_family_index: u32,
}

/// What a native buffer is created from.
#[derive(Clone, Copy, Debug, PartialEq, Eq, Structural)]
pub struct BufferCreateInfo {
    pub size: u64,
    pub usage: u32,
    pub sharing_mode: i32,
}

#[derive(Clone, Copy, Debug, PartialEq, Eq, Structural)]
pub struct DestroyBuffer {
    pub buffer: u64,
}

/// What a native image is created from.
#[derive(Clone, Copy, Debug, PartialEq, Eq, Structural)]
pub struct ImageCreateInfo {
    pub image_type: i32,
    pub format: i32,
    pub extent: Extent3D,
    pub mip_levels: u32,
    pub array_layers: u32,
    pub samples: u32,
    pub tiling: i32,
    pub usage: u32,
    pub sharing_mode: i32,
    pub initial_layout: i32,
}

/// What a native image view is created from.
#[derive(Clone, Copy, Debug, PartialEq, Eq, Structural)]
pub struct ImageViewCreateInfo {
    pub flags: u32,
    pub image: u64,
    pub view_type: i32,
    pub format: i32,
    pub subresource_range: ImageSubresourceRange,
}

/// The memory that the native API asks for a buffer or an image.
#[derive(Clone, Copy, Debug, PartialEq, Eq, Structural)]
pub struct MemoryRequirements {
    pub size: u64,
    pub alignment: u64,
    pub memory_type_bits: u32,
}

/// What command buffers are allocated from.
#[derive(Clone, Copy, Debug, PartialEq, Eq, Structural)]
pub struct CommandBufferAllocateInfo {
    pub command_pool: u64,
    pub level: i32,
    pub command_buffer_count: u32,
}

/// Puts a command buffer into the recording state.
#[derive(Clone, Copy, Debug, PartialEq, Eq, Structural)]
pub struct BeginCommandBuffer {
    pub command_buffer: u64,
    pub flags: u32,
}

/// Moves an image from one layout to another.
#[derive(Clone, Copy, Debug, PartialEq, Eq, Structural)]
pub struct ImageMemoryBarrier {
    pub src_access_mask: u32,
    pub dst_access_mask: u32,
    pub old_layout: i32,
    pub new_layout: i32,
    pub image: u64,
    pub subresource_range: ImageSubresourceRange,
}

/// A pipeline barrier with one image barrier and no other.
#[derive(Clone, Copy, Debug, PartialEq, Eq, Structural)]
pub struct PipelineBarrier {
    pub command_buffer: u64,
    pub src_stage_mask: u32,
    pub dst_stage_mask: u32,
    pub dependency_flags: u32,
    pub image_memory_barrier: ImageMemoryBarrier,
}

/// What a dynamic render pass draws into.
#[derive(Debug, PartialEq)]
pub struct RenderingInfo<C, D> {
    pub render_area: Rect2D,
    pub layer_count: u32,
    pub view_mask: u32,
    pub color_attachments: Vec<RenderingAttachmentInfo<C>>,
    pub depth_attachment: Option<RenderingAttachmentInfo<ClearDepthStencilValue<D>>>,
}

/// Sets the scissor rectangle with the given number.
#[derive(Clone, Copy, Debug, PartialEq, Eq, Structural)]
pub struct SetScissor {
    pub command_buffer: u64,
    pub first_scissor: u32,
    pub scissor: Rect2D,
}

/// Sets the viewport with the given number.
#[derive(Clone, Copy, Debug, PartialEq, Eq, Structural)]
pub struct SetViewport {
    pub command_buffer: u64,
    pub first_viewport: u32,
    pub viewport: Viewport,
}

/// Begins a dynamic render pass.
#[derive(Debug, PartialEq)]
pub struct BeginRendering<C, D> {
    pub command_buffer: u64,
    pub rendering: RenderingInfo<C, D>,
}

#[derive(Clone, Copy, Debug, PartialEq, Eq, Structural)]
pub struct EndRendering {
    pub command_buffer: u64,
}

#[derive(Clone, Copy, Debug, PartialEq, Eq, Structural)]
pub struct BindPipeline {
    pub command_buffer: u64,
    pub pipeline_bind_point: i32,
    pub pipeline: u64,
}

/// Binds one vertex buffer at one binding.
#[derive(Clone, Copy, Debug, PartialEq, Eq, Structural)]
pub struct BindVertexBuffer {
    pub command_buffer: u64,
    pub first_binding: u32,
    pub buffer: u64,
    pub offset: u64,
}

#[derive(Clone, Copy, Debug, PartialEq, Eq)]
pub struct PushConstants<'a> {
    pub command_buffer: u64,
    pub layout: u64,
    pub stage_flags: u32,
    pub offset: u32,
    pub values: &'a [u8],
}

#[derive(Clone, Copy, Debug, PartialEq, Eq, Structural)]
pub struct Draw {
    pub command_buffer: u64,
    pub vertex_count: u32,
    pub instance_count: u32,
    pub first_vertex: u32,
    pub first_instance: u32,
}

/// One submission to a queue: the command buffers to run, the semaphores
/// to wait on before and to signal after, and the fence to signal at the
/// end, which is the null handle where there is none.
#[derive(Debug, PartialEq, Eq)]
pub struct SubmitInfo {
    pub command_buffers: Vec<u64>,
    pub wait_semaphores: Vec<u64>,
    /// For each semaphore to wait on, the stages that wait for it.
    pub wait_dst_stage_masks: Vec<u32>,
    pub signal_semaphores: Vec<u64>,
    pub fence: u64,
}

/// Waits for one fence, for at most `timeout` nanoseconds.
#[derive(Clone, Copy, Debug, PartialEq, Eq, Structural)]
pub struct WaitForFence {
    pub fence: u64,
    pub timeout: u64,
}

#[derive(Clone, Copy, Debug, PartialEq, Eq, Structural)]
pub struct ResetFence {
    pub fence: u64,
}

} // verus!
