//! The names of the library in one place.

pub use crate::adapter::Adapter;
pub use crate::buffer::{Buffer, BufferInitInfo};
pub use crate::command::{CommandBuffer, CommandEncoder, EncoderState, ProtocolViolation};
pub use crate::device::{
    CommandEncoderInfo, Device, DeviceCreateInfo, DeviceError, Extensions, Features,
};
pub use crate::flags::{
    AccessFlags, BufferUsages, ColorWrites, CullModeFlags, PipelineFlags, PipelineLayoutFlags,
    ShaderStages, StageFlags, TextureAspects, TextureUsages,
};
pub use crate::format::{TextureFormat, VertexFormat};
pub use crate::image::{ImageTransitionLayout, TextureFormatColorSpace};
pub use crate::pipeline::{
    BlendComponent, BlendFactor, BlendOperation, BlendState, ColorTargetState,
    DepthBiasState, DepthCompareOperator, DepthStencilState, FrontFace, IndexFormat, LoadOp,
    MultisampleState, Operations, PolygonMode, PrimitiveState, PrimitiveTopology,
    PushConstantRange, ShaderLocation, StoreOp, VertexAttribute, VertexBufferLayout,
    VertexStepMode,
};
pub use crate::queue::{Queue, QueueCreateInfo, QueueFamily};
pub use crate::raster::{
    BindGroupLayout, BindGroupLayoutDescriptor, BindGroupLayoutEntry, BindingType,
    ComputePipeline, ComputePipelineInfo, FragmentState, PipelineLayout, PipelineLayoutInfo,
    RasterPipeline, RasterPipelineInfo, ShaderStage,
};
pub use crate::render::{DepthAttachment, RenderAttachment, RenderInfo, StencilAttachment};
pub use crate::shader::{
    ShaderError, ShaderKind, ShaderModule, ShaderSource, WgslShaderCompileInfo,
};
pub use crate::sync::{BinarySemaphore, Fence, TimelineSemaphore};
pub use crate::texture::{Frame, Texture, TextureView};
pub use crate::types::{
    BufferAddress, BufferSharing, Extent2D, Extent3D, ImageSubresourceRange, PresentMode,
    SharingMode, TextureDimension, TextureInfo, TextureViewDimension, TextureViewInfo,
    COPY_BUFFER_ALIGNMENT,
};
