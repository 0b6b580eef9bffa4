//! Portable description of the state of a raster pipeline.

use vstd::prelude::*;
use std::ops::Range;
use crate::flags::{ColorWrites, CullModeFlags, ShaderStages};
use crate::format::{TextureFormat, VertexFormat};
use crate::types::BufferAddress;

verus! {

#[derive(Copy, Clone, Debug, Hash, PartialEq, Eq, Structural)]
pub enum PolygonMode {
    Fill,
    Line,
    Point,
    FillRectangleNV,
}

#[derive(Copy, Clone, Debug, Hash, PartialEq, Eq, Structural)]
pub enum PrimitiveTopology {
    PointList,
    LineList,
    LineStrip,
    TriangleList,
    TriangleStrip,
    TriangleFan,
    LineListWithAdjacency,
    LineStripWithAdjacency,
    TriangleListWithAdjacency,
    TriangleStripWithAdjacency,
    PatchList,
}

#[derive(Copy, Clone, Debug, Hash, PartialEq, Eq, Structural)]
pub enum FrontFace {
    CounterClock,
    Clock,
}

#[derive(Copy, Clone, Debug, Hash, PartialEq, Eq, Structural)]
pub enum IndexFormat {
    Uint16,
    Uint32,
}

#[derive(Copy, Clone, Debug, Hash, PartialEq, Eq, Structural)]
pub enum DepthCompareOperator {
    Never,
    Less,
    Equal,
    LessEqual,
    Greater,
    NotEqual,
    GreaterEqual,
    Always,
}

#[derive(Copy, Clone, Debug, Hash, PartialEq, Eq, Structural)]
pub enum VertexStepMode {
    Vertex,
    Instance,
}

#[derive(Copy, Clone, Debug, Hash, PartialEq, Eq, Structural)]
pub enum BlendFactor {
    /// 0.0
    Zero,
    /// 1.0
    One,
    /// S.component
    Src,
    /// 1.0 - S.component
    OneMinusSrc,
    /// S.alpha
    SrcAlpha,
    /// 1.0 - S.alpha
    OneMinusSrcAlpha,
    /// D.component
    Dst,
    /// 1.0 - D.component
    OneMinusDst,
    /// D.alpha
    DstAlpha,
    /// 1.0 - D.alpha
    OneMinusDstAlpha,
    /// min(S.alpha, 1.0 - D.alpha)
    SrcAlphaSaturated,
    /// Constant
    Constant,
    /// 1.0 - Constant
    OneMinusConstant,
}

impl BlendFactor {
    /// Whether the factor reads the blend constant.
    pub open spec fn is_constant(self) -> bool {
        self == BlendFactor::Constant || self == BlendFactor::OneMinusConstant
    }
}

#[derive(Copy, Clone, Debug, Hash, PartialEq, Eq, Structural)]
pub enum BlendOperation {
    /// Src + Dst
    Add,
    /// Src - Dst
    Subtract,
    /// Dst - Src
    ReverseSubtract,
    /// min(Src, Dst)
    Min,
    /// max(Src, Dst)
    Max,
}

impl Default for BlendOperation {
    fn default() -> (operation: Self)
        ensures
            operation == BlendOperation::Add,
    {
        BlendOperation::Add
    }
}

/// How one of color and alpha is blended into the target.
#[derive(Clone, Copy, Debug, Hash, PartialEq, Eq, Structural)]
pub struct BlendComponent {
    /// Multiplier for the source, which is produced by the fragment shader.
    pub src_factor: BlendFactor,
    /// Multiplier for the destination, which is stored in the target.
    pub dst_factor: BlendFactor,
    /// The binary operation applied to the source and destination,
    /// multiplied by their respective factors.
    pub operation: BlendOperation,
}

impl BlendComponent {
    /// Blend state of (1 * src) + (0 * dst): the source replaces the target.
    pub open spec fn spec_replace() -> Self {
        BlendComponent {
            src_factor: BlendFactor::One,
            dst_factor: BlendFactor::Zero,
            operation: BlendOperation::Add,
        }
    }

    /// Blend state of (1 * src) + ((1 - src_alpha) * dst).
    pub open spec fn spec_over() -> Self {
        BlendComponent {
            src_factor: BlendFactor::One,
            dst_factor: BlendFactor::OneMinusSrcAlpha,
            operation: BlendOperation::Add,
        }
    }

    /// Blend state of (1 * src) + (0 * dst): the source replaces the target.
    #[verifier::when_used_as_spec(spec_replace)]
    pub fn replace() -> (component: Self)
        ensures
            component == Self::spec_replace(),
    {
        BlendComponent {
            src_factor: BlendFactor::One,
            dst_factor: BlendFactor::Zero,
            operation: BlendOperation::Add,
        }
    }

    /// Blend state of (1 * src) + ((1 - src_alpha) * dst).
    #[verifier::when_used_as_spec(spec_over)]
    pub fn over() -> (component: Self)
        ensures
            component == Self::spec_over(),
    {
        BlendComponent {
            src_factor: BlendFactor::One,
            dst_factor: BlendFactor::OneMinusSrcAlpha,
            operation: BlendOperation::Add,
        }
    }

    /// Whether the source or the destination factor reads the blend constant.
    pub fn uses_constant(&self) -> (uses: bool)
        ensures
            uses == (self.src_factor.is_constant() || self.dst_factor.is_constant()),
    {
        match (self.src_factor, self.dst_factor) {
            (BlendFactor::Constant, _)
            | (BlendFactor::OneMinusConstant, _)
            | (_, BlendFactor::Constant)
            | (_, BlendFactor::OneMinusConstant) => true,
            (_, _) => false,
        }
    }
}

/// How color and alpha are blended into one color target.
#[derive(Clone, Copy, Debug, Hash, PartialEq, Eq, Structural)]
pub struct BlendState {
    pub color: BlendComponent,
    pub alpha: BlendComponent,
}

impl BlendState {
    /// The source replaces the target, in color and in alpha.
    pub fn replace() -> (state: Self)
        ensures
            state.color == BlendComponent::spec_replace(),
            state.alpha == BlendComponent::spec_replace(),
    {
        BlendState { color: BlendComponent::replace(), alpha: BlendComponent::replace() }
    }

    /// Blends the source over the target by the source's alpha.
    pub fn alpha_blending() -> (state: Self)
        ensures
            state.color == (BlendComponent {
                src_factor: BlendFactor::SrcAlpha,
                dst_factor: BlendFactor::OneMinusSrcAlpha,
                operation: BlendOperation::Add,
            }),
            state.alpha == BlendComponent::spec_over(),
    {
        BlendState {
            color: BlendComponent {
                src_factor: BlendFactor::SrcAlpha,
                dst_factor: BlendFactor::OneMinusSrcAlpha,
                operation: BlendOperation::Add,
            },
            alpha: BlendComponent::over(),
        }
    }

    /// Blends a source whose color is already multiplied by its alpha.
    pub fn premultiplied_alpha_blending() -> (state: Self)
        ensures
            state.color == BlendComponent::spec_over(),
            state.alpha == BlendComponent::spec_over(),
    {
        BlendState { color: BlendComponent::over(), alpha: BlendComponent::over() }
    }
}

/// A range of push-constant bytes and the shader stages that see it.
#[derive(Debug, PartialEq, Eq)]
pub struct PushConstantRange {
    pub stages: ShaderStages,
    pub range: Range<u32>,
}

impl PushConstantRange {
    /// The range runs forward, and its offset and its length are multiples of
    /// four bytes.
    pub open spec fn well_formed(&self) -> bool {
        &&& self.range.start <= self.range.end
        &&& self.range.start % 4 == 0
        &&& (self.range.end - self.range.start) % 4 == 0
    }

    /// Whether the range is well formed.
    pub fn is_well_formed(&self) -> (ok: bool)
        ensures
            ok == self.well_formed(),
    {
        self.range.start <= self.range.end && self.range.start % 4 == 0 && (self.range.end
            - self.range.start) % 4 == 0
    }
}

/// How primitives are assembled and rasterized. `F` is the type of the line
/// width.
#[derive(Clone, Copy, Debug, PartialEq)]
pub struct PrimitiveState<F> {
    pub topology: PrimitiveTopology,
    pub strip_index_format: Option<IndexFormat>,
    pub front_face: FrontFace,
    pub cull_mode: Option<CullModeFlags>,
    pub polygon_mode: PolygonMode,
    pub unclipped_depth: bool,
    pub conservative: bool,
    pub line_width: F,
}

/// The depth test of a pipeline. `F` is the type of the bias factors.
#[derive(Clone, Copy, Debug, PartialEq)]
pub struct DepthStencilState<F> {
    pub format: TextureFormat,
    pub write: bool,
    pub depth_compare: DepthCompareOperator,
    pub bias: DepthBiasState<F>,
    pub read_mask: u32,
    pub write_mask: u32,
}

#[derive(Clone, Copy, Debug, PartialEq)]
pub struct DepthBiasState<F> {
    pub constant: F,
    pub slope: F,
    pub clamp: F,
}

/// What happens to an attachment when a render pass begins.
#[derive(Debug, Copy, Clone, PartialEq, Eq, Hash)]
pub enum LoadOp<T> {
    /// The attachment is cleared to the given value.
    Clear(T),
    /// The attachment keeps its contents.
    Load,
    /// The contents are undefined.
    DontCare,
}

/// What happens to an attachment when a render pass ends.
#[derive(Debug, Copy, Clone, PartialEq, Eq, Hash, Structural)]
pub enum StoreOp {
    Store,
    DontCare,
}

#[derive(Debug, Copy, Clone, PartialEq)]
pub struct Operations<T> {
    pub load: LoadOp<T>,
    pub store: StoreOp,
}

#[derive(Clone, Copy, Debug, Hash, PartialEq, Eq, Structural)]
pub struct MultisampleState {
    pub count: u32,
    pub mask: u64,
    pub alpha_to_coverage_enabled: bool,
}

#[derive(Clone, Copy, Debug, PartialEq, Eq, Structural)]
pub struct ColorTargetState {
    pub format: TextureFormat,
    pub blend: Option<BlendState>,
    pub write_mask: ColorWrites,
}

pub type ShaderLocation = u32;

#[derive(Clone, Copy, Debug, PartialEq, Eq, Structural)]
pub struct VertexAttribute {
    pub format: VertexFormat,
    pub offset: BufferAddress,
    pub location: ShaderLocation,
}

/// One vertex buffer of a pipeline and the attributes read from it.
#[derive(Clone, Copy, Debug, PartialEq, Eq)]
pub struct VertexBufferLayout<'a> {
    pub array_stride: BufferAddress,
    pub step_mode: VertexStepMode,
    pub attributes: &'a [VertexAttribute],
}

} // verus!
