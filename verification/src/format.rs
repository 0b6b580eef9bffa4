//! Vertex and texture formats, and how they are laid out in the native
//! format numbering.

use vstd::prelude::*;

verus! {

/// How one component of a format is interpreted.
#[derive(Clone, Copy, Debug, PartialEq, Eq, Hash, Structural)]
pub enum ComponentKind {
    /// Unsigned integer.
    Uint,
    /// Signed integer.
    Sint,
    /// Unsigned integer read as a fraction in `[0, 1]`.
    Unorm,
    /// Signed integer read as a fraction in `[-1, 1]`.
    Snorm,
    /// Floating point.
    Float,
}

/// Component count, width of one component in bits, and interpretation.
#[derive(Clone, Copy, Debug, PartialEq, Eq, Hash, Structural)]
pub struct FormatLayout {
    pub components: u8,
    pub bits: u8,
    pub kind: ComponentKind,
}

/// Format of one vertex attribute.
#[derive(Clone, Copy, Debug, PartialEq, Eq, Hash, Structural)]
pub enum VertexFormat {
    /// Two unsigned bytes.
    Uint8x2,
    /// Four unsigned bytes.
    Uint8x4,
    /// Two signed bytes.
    Sint8x2,
    /// Four signed bytes.
    Sint8x4,
    /// Two unsigned bytes, `[0, 255]` read as `[0, 1]`.
    Unorm8x2,
    /// Four unsigned bytes, `[0, 255]` read as `[0, 1]`.
    Unorm8x4,
    /// Two signed bytes, `[-127, 127]` read as `[-1, 1]`.
    Snorm8x2,
    /// Four signed bytes, `[-127, 127]` read as `[-1, 1]`.
    Snorm8x4,
    /// Two unsigned shorts.
    Uint16x2,
    /// Four unsigned shorts.
    Uint16x4,
    /// Two signed shorts.
    Sint16x2,
    /// Four signed shorts.
    Sint16x4,
    /// Two unsigned shorts, `[0, 65535]` read as `[0, 1]`.
    Unorm16x2,
    /// Four unsigned shorts, `[0, 65535]` read as `[0, 1]`.
    Unorm16x4,
    /// Two signed shorts, `[-32767, 32767]` read as `[-1, 1]`.
    Snorm16x2,
    /// Four signed shorts, `[-32767, 32767]` read as `[-1, 1]`.
    Snorm16x4,
    /// Two half-precision floats.
    Float16x2,
    /// Four half-precision floats.
    Float16x4,
    /// One single-precision float.
    Float32,
    /// Two single-precision floats.
    Float32x2,
    /// Three single-precision floats.
    Float32x3,
    /// Four single-precision floats.
    Float32x4,
    /// One unsigned int.
    Uint32,
    /// Two unsigned ints.
    Uint32x2,
    /// Three unsigned ints.
    Uint32x3,
    /// Four unsigned ints.
    Uint32x4,
    /// One signed int.
    Sint32,
    /// Two signed ints.
    Sint32x2,
    /// Three signed ints.
    Sint32x3,
    /// Four signed ints.
    Sint32x4,
    /// One double-precision float.
    Float64,
    /// Two double-precision floats.
    Float64x2,
    /// Three double-precision floats.
    Float64x3,
    /// Four double-precision floats.
    Float64x4,
}

impl VertexFormat {
    /// Number of components, as the format's name declares it.
    pub open spec fn components(self) -> u8 {
        match self {
            VertexFormat::Float32 | VertexFormat::Uint32 | VertexFormat::Sint32
            | VertexFormat::Float64 => 1,
            VertexFormat::Uint8x2 | VertexFormat::Sint8x2 | VertexFormat::Unorm8x2
            | VertexFormat::Snorm8x2 | VertexFormat::Uint16x2 | VertexFormat::Sint16x2
            | VertexFormat::Unorm16x2 | VertexFormat::Snorm16x2 | VertexFormat::Float16x2
            | VertexFormat::Float32x2 | VertexFormat::Uint32x2 | VertexFormat::Sint32x2
            | VertexFormat::Float64x2 => 2,
            VertexFormat::Float32x3 | VertexFormat::Uint32x3 | VertexFormat::Sint32x3
            | VertexFormat::Float64x3 => 3,
            VertexFormat::Uint8x4 | VertexFormat::Sint8x4 | VertexFormat::Unorm8x4
            | VertexFormat::Snorm8x4 | VertexFormat::Uint16x4 | VertexFormat::Sint16x4
            | VertexFormat::Unorm16x4 | VertexFormat::Snorm16x4 | VertexFormat::Float16x4
            | VertexFormat::Float32x4 | VertexFormat::Uint32x4 | VertexFormat::Sint32x4
            | VertexFormat::Float64x4 => 4,
        }
    }

    /// Width of one component in bits, as the format's name declares it.
    pub open spec fn component_bits(self) -> u8 {
        match self {
            VertexFormat::Uint8x2 | VertexFormat::Uint8x4 | VertexFormat::Sint8x2
            | VertexFormat::Sint8x4 | VertexFormat::Unorm8x2 | VertexFormat::Unorm8x4
            | VertexFormat::Snorm8x2 | VertexFormat::Snorm8x4 => 8,
            VertexFormat::Uint16x2 | VertexFormat::Uint16x4 | VertexFormat::Sint16x2
            | VertexFormat::Sint16x4 | VertexFormat::Unorm16x2 | VertexFormat::Unorm16x4
            | VertexFormat::Snorm16x2 | VertexFormat::Snorm16x4 | VertexFormat::Float16x2
            | VertexFormat::Float16x4 => 16,
            VertexFormat::Float32 | VertexFormat::Float32x2 | VertexFormat::Float32x3
            | VertexFormat::Float32x4 | VertexFormat::Uint32 | VertexFormat::Uint32x2
            | VertexFormat::Uint32x3 | VertexFormat::Uint32x4 | VertexFormat::Sint32
            | VertexFormat::Sint32x2 | VertexFormat::Sint32x3 | VertexFormat::Sint32x4 => 32,
            VertexFormat::Float64 | VertexFormat::Float64x2 | VertexFormat::Float64x3
            | VertexFormat::Float64x4 => 64,
        }
    }

    /// Interpretation of a component, as the format's name declares it.
    pub open spec fn kind(self) -> ComponentKind {
        match self {
            VertexFormat::Uint8x2 | VertexFormat::Uint8x4 | VertexFormat::Uint16x2
            | VertexFormat::Uint16x4 | VertexFormat::Uint32 | VertexFormat::Uint32x2
            | VertexFormat::Uint32x3 | VertexFormat::Uint32x4 => ComponentKind::Uint,
            VertexFormat::Sint8x2 | VertexFormat::Sint8x4 | VertexFormat::Sint16x2
            | VertexFormat::Sint16x4 | VertexFormat::Sint32 | VertexFormat::Sint32x2
            | VertexFormat::Sint32x3 | VertexFormat::Sint32x4 => ComponentKind::Sint,
            VertexFormat::Unorm8x2 | VertexFormat::Unorm8x4 | VertexFormat::Unorm16x2
            | VertexFormat::Unorm16x4 => ComponentKind::Unorm,
            VertexFormat::Snorm8x2 | VertexFormat::Snorm8x4 | VertexFormat::Snorm16x2
            | VertexFormat::Snorm16x4 => ComponentKind::Snorm,
            VertexFormat::Float16x2 | VertexFormat::Float16x4 | VertexFormat::Float32
            | VertexFormat::Float32x2 | VertexFormat::Float32x3 | VertexFormat::Float32x4
            | VertexFormat::Float64 | VertexFormat::Float64x2 | VertexFormat::Float64x3
            | VertexFormat::Float64x4 => ComponentKind::Float,
        }
    }

    /// The layout that the format's name declares.
    pub open spec fn layout(self) -> FormatLayout {
        FormatLayout {
            components: self.components(),
            bits: self.component_bits(),
            kind: self.kind(),
        }
    }
}

/// The native format code of a vertex format.
pub open spec fn native_vertex_format(format: VertexFormat) -> i32 {
    match format {
        VertexFormat::Uint8x2 => 20,
        VertexFormat::Uint8x4 => 41,
        VertexFormat::Sint8x2 => 21,
        VertexFormat::Sint8x4 => 42,
        VertexFormat::Unorm8x2 => 16,
        VertexFormat::Unorm8x4 => 37,
        VertexFormat::Snorm8x2 => 17,
        VertexFormat::Snorm8x4 => 38,
        VertexFormat::Uint16x2 => 81,
        VertexFormat::Uint16x4 => 95,
        VertexFormat::Sint16x2 => 82,
        VertexFormat::Sint16x4 => 96,
        VertexFormat::Unorm16x2 => 77,
        VertexFormat::Unorm16x4 => 91,
        VertexFormat::Snorm16x2 => 78,
        VertexFormat::Snorm16x4 => 92,
        VertexFormat::Float16x2 => 83,
        VertexFormat::Float16x4 => 97,
        VertexFormat::Float32 => 100,
        VertexFormat::Float32x2 => 103,
        VertexFormat::Float32x3 => 106,
        VertexFormat::Float32x4 => 109,
        VertexFormat::Uint32 => 98,
        VertexFormat::Uint32x2 => 101,
        VertexFormat::Uint32x3 => 104,
        VertexFormat::Uint32x4 => 107,
        VertexFormat::Sint32 => 99,
        VertexFormat::Sint32x2 => 102,
        VertexFormat::Sint32x3 => 105,
        VertexFormat::Sint32x4 => 108,
        VertexFormat::Float64 => 112,
        VertexFormat::Float64x2 => 115,
        VertexFormat::Float64x3 => 118,
        VertexFormat::Float64x4 => 121,
    }
}

/// What a native format code says about its components, for the codes of the
/// plain red/green/blue/alpha formats.
///
/// The native numbering puts these formats in four runs, one per component
/// width. Inside a run the formats are ordered by component count first and
/// by interpretation second: seven interpretations per count for 8 and 16
/// bits, three for 32 and 64 bits. The 8-bit run holds the blue-first
/// three-component formats between the red-first three- and four-component
/// ones. Scaled and sRGB interpretations have no layout here.
pub open spec fn native_format_layout(code: i32) -> Option<FormatLayout> {
    if 9 <= code <= 43 && !(30 <= code <= 36) {
        let group = (code - 9) / 7;
        let components: u8 = if group == 4 { 4 } else { (group + 1) as u8 };
        match narrow_kind((code - 9) % 7, false) {
            Some(kind) => Some(FormatLayout { components, bits: 8, kind }),
            None => None,
        }
    } else if 70 <= code <= 97 {
        match narrow_kind((code - 70) % 7, true) {
            Some(kind) => Some(
                FormatLayout { components: ((code - 70) / 7 + 1) as u8, bits: 16, kind },
            ),
            None => None,
        }
    } else if 98 <= code <= 109 {
        Some(
            FormatLayout {
                components: ((code - 98) / 3 + 1) as u8,
                bits: 32,
                kind: wide_kind((code - 98) % 3),
            },
        )
    } else if 110 <= code <= 121 {
        Some(
            FormatLayout {
                components: ((code - 110) / 3 + 1) as u8,
                bits: 64,
                kind: wide_kind((code - 110) % 3),
            },
        )
    } else {
        None
    }
}

/// Interpretation at position `index` among the seven of an 8- or 16-bit
/// component count. The last position is sRGB for 8 bits and floating point
/// for 16 bits.
pub open spec fn narrow_kind(index: int, has_float: bool) -> Option<ComponentKind> {
    if index == 0 {
        Some(ComponentKind::Unorm)
    } else if index == 1 {
        Some(ComponentKind::Snorm)
    } else if index == 4 {
        Some(ComponentKind::Uint)
    } else if index == 5 {
        Some(ComponentKind::Sint)
    } else if index == 6 && has_float {
        Some(ComponentKind::Float)
    } else {
        None
    }
}

/// Interpretation at position `index` among the three of a 32- or 64-bit
/// component count.
pub open spec fn wide_kind(index: int) -> ComponentKind {
    if index == 0 {
        ComponentKind::Uint
    } else if index == 1 {
        ComponentKind::Sint
    } else {
        ComponentKind::Float
    }
}

/// Decodes a native format code into its component layout.
pub fn decode_native_format(code: i32) -> (layout: Option<FormatLayout>)
    ensures
        layout == native_format_layout(code),
{
    if 9 <= code && code <= 43 && !(30 <= code && code <= 36) {
        let group: i32 = (code - 9) / 7;
        let index: i32 = (code - 9) % 7;
        let components: u8 = if group == 4 { 4 } else { (group + 1) as u8 };
        match decode_narrow_kind(index, false) {
            Some(kind) => Some(FormatLayout { components, bits: 8, kind }),
            None => None,
        }
    } else if 70 <= code && code <= 97 {
        let index: i32 = (code - 70) % 7;
        match decode_narrow_kind(index, true) {
            Some(kind) => Some(
                FormatLayout { components: ((code - 70) / 7 + 1) as u8, bits: 16, kind },
            ),
            None => None,
        }
    } else if 98 <= code && code <= 109 {
        Some(
            FormatLayout {
                components: ((code - 98) / 3 + 1) as u8,
                bits: 32,
                kind: decode_wide_kind((code - 98) % 3),
            },
        )
    } else if 110 <= code && code <= 121 {
        Some(
            FormatLayout {
                components: ((code - 110) / 3 + 1) as u8,
                bits: 64,
                kind: decode_wide_kind((code - 110) % 3),
            },
        )
    } else {
        None
    }
}

fn decode_narrow_kind(index: i32, has_float: bool) -> (kind: Option<ComponentKind>)
    ensures
        kind == narrow_kind(index as int, has_float),
{
    if index == 0 {
        Some(ComponentKind::Unorm)
    } else if index == 1 {
        Some(ComponentKind::Snorm)
    } else if index == 4 {
        Some(ComponentKind::Uint)
    } else if index == 5 {
        Some(ComponentKind::Sint)
    } else if index == 6 && has_float {
        Some(ComponentKind::Float)
    } else {
        None
    }
}

fn decode_wide_kind(index: i32) -> (kind: ComponentKind)
    ensures
        kind == wide_kind(index as int),
{
    if index == 0 {
        ComponentKind::Uint
    } else if index == 1 {
        ComponentKind::Sint
    } else {
        ComponentKind::Float
    }
}

/// Every vertex format maps to a native format whose code decodes to the
/// component count, component width and interpretation that the vertex
/// format's name declares.
pub proof fn lemma_vertex_format_layout(format: VertexFormat)
    ensures
        native_format_layout(native_vertex_format(format)) == Some(format.layout()),
{
}

/// Distinct vertex formats have distinct native codes.
pub proof fn lemma_vertex_format_injective(a: VertexFormat, b: VertexFormat)
    requires
        native_vertex_format(a) == native_vertex_format(b),
    ensures
        a == b,
{
}

/// Format of the texels of a texture or of a presentable image.
#[derive(Clone, Copy, Debug, PartialEq, Eq, Hash, Structural)]
pub enum TextureFormat {
    Undefined,
    R8Unorm,
    R8Snorm,
    R8Uint,
    R8Sint,
    R8G8Unorm,
    R8G8Snorm,
    R8G8Uint,
    R8G8Sint,
    R8G8B8A8Unorm,
    R8G8B8A8Snorm,
    R8G8B8A8Uint,
    R8G8B8A8Sint,
    R8G8B8A8Srgb,
    B8G8R8A8Unorm,
    B8G8R8A8Srgb,
    R16Uint,
    R16Sint,
    R16Sfloat,
    R16G16Uint,
    R16G16Sint,
    R16G16Sfloat,
    R16G16B16A16Uint,
    R16G16B16A16Sint,
    R16G16B16A16Sfloat,
    R32Uint,
    R32Sint,
    R32Sfloat,
    R32G32Uint,
    R32G32Sint,
    R32G32Sfloat,
    R32G32B32A32Uint,
    R32G32B32A32Sint,
    R32G32B32A32Sfloat,
    D16Unorm,
    X8D24UnormPack32,
    D32Sfloat,
    S8Uint,
    D16UnormS8Uint,
    D24UnormS8Uint,
    D32SfloatS8Uint,
}

impl TextureFormat {
    /// The native format code. A texture format is handed to the native API
    /// by this number.
    pub open spec fn native_code(self) -> i32 {
        match self {
            TextureFormat::Undefined => 0,
            TextureFormat::R8Unorm => 9,
            TextureFormat::R8Snorm => 10,
            TextureFormat::R8Uint => 13,
            TextureFormat::R8Sint => 14,
            TextureFormat::R8G8Unorm => 16,
            TextureFormat::R8G8Snorm => 17,
            TextureFormat::R8G8Uint => 20,
            TextureFormat::R8G8Sint => 21,
            TextureFormat::R8G8B8A8Unorm => 37,
            TextureFormat::R8G8B8A8Snorm => 38,
            TextureFormat::R8G8B8A8Uint => 41,
            TextureFormat::R8G8B8A8Sint => 42,
            TextureFormat::R8G8B8A8Srgb => 43,
            TextureFormat::B8G8R8A8Unorm => 44,
            TextureFormat::B8G8R8A8Srgb => 50,
            TextureFormat::R16Uint => 74,
            TextureFormat::R16Sint => 75,
            TextureFormat::R16Sfloat => 76,
            TextureFormat::R16G16Uint => 81,
            TextureFormat::R16G16Sint => 82,
            TextureFormat::R16G16Sfloat => 83,
            TextureFormat::R16G16B16A16Uint => 95,
            TextureFormat::R16G16B16A16Sint => 96,
            TextureFormat::R16G16B16A16Sfloat => 97,
            TextureFormat::R32Uint => 98,
            TextureFormat::R32Sint => 99,
            TextureFormat::R32Sfloat => 100,
            TextureFormat::R32G32Uint => 101,
            TextureFormat::R32G32Sint => 102,
            TextureFormat::R32G32Sfloat => 103,
            TextureFormat::R32G32B32A32Uint => 107,
            TextureFormat::R32G32B32A32Sint => 108,
            TextureFormat::R32G32B32A32Sfloat => 109,
            TextureFormat::D16Unorm => 124,
            TextureFormat::X8D24UnormPack32 => 125,
            TextureFormat::D32Sfloat => 126,
            TextureFormat::S8Uint => 127,
            TextureFormat::D16UnormS8Uint => 128,
            TextureFormat::D24UnormS8Uint => 129,
            TextureFormat::D32SfloatS8Uint => 130,
        }
    }

    /// The native format code.
    pub fn code(self) -> (code: i32)
        ensures
            code == self.native_code(),
    {
        match self {
            TextureFormat::Undefined => 0,
            TextureFormat::R8Unorm => 9,
            TextureFormat::R8Snorm => 10,
            TextureFormat::R8Uint => 13,
            TextureFormat::R8Sint => 14,
            TextureFormat::R8G8Unorm => 16,
            TextureFormat::R8G8Snorm => 17,
            TextureFormat::R8G8Uint => 20,
            TextureFormat::R8G8Sint => 21,
            TextureFormat::R8G8B8A8Unorm => 37,
            TextureFormat::R8G8B8A8Snorm => 38,
            TextureFormat::R8G8B8A8Uint => 41,
            TextureFormat::R8G8B8A8Sint => 42,
            TextureFormat::R8G8B8A8Srgb => 43,
            TextureFormat::B8G8R8A8Unorm => 44,
            TextureFormat::B8G8R8A8Srgb => 50,
            TextureFormat::R16Uint => 74,
            TextureFormat::R16Sint => 75,
            TextureFormat::R16Sfloat => 76,
            TextureFormat::R16G16Uint => 81,
            TextureFormat::R16G16Sint => 82,
            TextureFormat::R16G16Sfloat => 83,
            TextureFormat::R16G16B16A16Uint => 95,
            TextureFormat::R16G16B16A16Sint => 96,
            TextureFormat::R16G16B16A16Sfloat => 97,
            TextureFormat::R32Uint => 98,
            TextureFormat::R32Sint => 99,
            TextureFormat::R32Sfloat => 100,
            TextureFormat::R32G32Uint => 101,
            TextureFormat::R32G32Sint => 102,
            TextureFormat::R32G32Sfloat => 103,
            TextureFormat::R32G32B32A32Uint => 107,
            TextureFormat::R32G32B32A32Sint => 108,
            TextureFormat::R32G32B32A32Sfloat => 109,
            TextureFormat::D16Unorm => 124,
            TextureFormat::X8D24UnormPack32 => 125,
            TextureFormat::D32Sfloat => 126,
            TextureFormat::S8Uint => 127,
            TextureFormat::D16UnormS8Uint => 128,
            TextureFormat::D24UnormS8Uint => 129,
            TextureFormat::D32SfloatS8Uint => 130,
        }
    }

    /// The texture format with the given native code, if there is one.
    pub fn from_code(code: i32) -> (format: Option<TextureFormat>)
        ensures
            match format {
                Some(f) => f.native_code() == code,
                None => forall|f: TextureFormat| f.native_code() != code,
            },
    {
        match code {
            0 => Some(TextureFormat::Undefined),
            9 => Some(TextureFormat::R8Unorm),
            10 => Some(TextureFormat::R8Snorm),
            13 => Some(TextureFormat::R8Uint),
            14 => Some(TextureFormat::R8Sint),
            16 => Some(TextureFormat::R8G8Unorm),
            17 => Some(TextureFormat::R8G8Snorm),
            20 => Some(TextureFormat::R8G8Uint),
            21 => Some(TextureFormat::R8G8Sint),
            37 => Some(TextureFormat::R8G8B8A8Unorm),
            38 => Some(TextureFormat::R8G8B8A8Snorm),
            41 => Some(TextureFormat::R8G8B8A8Uint),
            42 => Some(TextureFormat::R8G8B8A8Sint),
            43 => Some(TextureFormat::R8G8B8A8Srgb),
            44 => Some(TextureFormat::B8G8R8A8Unorm),
            50 => Some(TextureFormat::B8G8R8A8Srgb),
            74 => Some(TextureFormat::R16Uint),
            75 => Some(TextureFormat::R16Sint),
            76 => Some(TextureFormat::R16Sfloat),
            81 => Some(TextureFormat::R16G16Uint),
            82 => Some(TextureFormat::R16G16Sint),
            83 => Some(TextureFormat::R16G16Sfloat),
            95 => Some(TextureFormat::R16G16B16A16Uint),
            96 => Some(TextureFormat::R16G16B16A16Sint),
            97 => Some(TextureFormat::R16G16B16A16Sfloat),
            98 => Some(TextureFormat::R32Uint),
            99 => Some(TextureFormat::R32Sint),
            100 => Some(TextureFormat::R32Sfloat),
            101 => Some(TextureFormat::R32G32Uint),
            102 => Some(TextureFormat::R32G32Sint),
            103 => Some(TextureFormat::R32G32Sfloat),
            107 => Some(TextureFormat::R32G32B32A32Uint),
            108 => Some(TextureFormat::R32G32B32A32Sint),
            109 => Some(TextureFormat::R32G32B32A32Sfloat),
            124 => Some(TextureFormat::D16Unorm),
            125 => Some(TextureFormat::X8D24UnormPack32),
            126 => Some(TextureFormat::D32Sfloat),
            127 => Some(TextureFormat::S8Uint),
            128 => Some(TextureFormat::D16UnormS8Uint),
            129 => Some(TextureFormat::D24UnormS8Uint),
            130 => Some(TextureFormat::D32SfloatS8Uint),
            _ => None,
        }
    }
}

/// Distinct texture formats have distinct native codes.
pub proof fn lemma_texture_format_code_injective(a: TextureFormat, b: TextureFormat)
    requires
        a.native_code() == b.native_code(),
    ensures
        a == b,
{
}

} // verus!
