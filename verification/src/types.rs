//! Portable descriptor types shared by buffers, textures and surfaces.

use vstd::prelude::*;
use crate::flags::{TextureAspects, TextureUsages};
use crate::format::TextureFormat;

verus! {

/// An offset or a size in a buffer, in bytes.
pub type BufferAddress = u64;

/// Every buffer size is a multiple of this many bytes, so that the buffer can
/// be the source or the target of a copy.
pub const COPY_BUFFER_ALIGNMENT: BufferAddress = 4;

#[derive(Debug, Copy, Clone, PartialEq, Eq, Structural)]
pub enum BufferSharing {
    Exclusive,
    Concurrent,
}

/// How presentation waits for the display.
#[derive(Debug, Copy, Clone, PartialEq, Eq, Structural)]
pub enum PresentMode {
    Immediate,
    Mailbox,
    Fifo,
    FifoRelaxed,
}

impl PresentMode {
    /// The native code of the mode.
    pub open spec fn native_code(self) -> i32 {
        match self {
            PresentMode::Immediate => 0,
            PresentMode::Mailbox => 1,
            PresentMode::Fifo => 2,
            PresentMode::FifoRelaxed => 3,
        }
    }

    /// Whether `val` is the native code of a present mode.
    pub open spec fn is_code(val: i32) -> bool {
        0 <= val <= 3
    }

    /// The present mode with native code `val`.
    pub fn from(val: i32) -> (mode: Self)
        requires
            Self::is_code(val),
        ensures
            mode.native_code() == val,
    {
        if val == 0 {
            PresentMode::Immediate
        } else if val == 1 {
            PresentMode::Mailbox
        } else if val == 2 {
            PresentMode::Fifo
        } else {
            PresentMode::FifoRelaxed
        }
    }

    /// The present mode with native code `val`, if `val` is such a code.
    pub fn from_code(val: i32) -> (mode: Option<Self>)
        ensures
            Self::is_code(val) ==> mode.is_some() && mode.unwrap().native_code() == val,
            !Self::is_code(val) ==> mode.is_none(),
    {
        if 0 <= val && val <= 3 {
            Some(Self::from(val))
        } else {
            None
        }
    }
}

#[derive(Debug, Copy, Clone, PartialEq, Eq, Structural)]
pub struct Extent2D {
    pub width: u32,
    pub height: u32,
}

#[derive(Debug, Copy, Clone, PartialEq, Eq, Structural)]
pub struct Extent3D {
    pub width: u32,
    pub height: u32,
    pub depth: u32,
}

#[derive(Debug, Copy, Clone, Hash, PartialEq, Eq, Structural)]
pub enum TextureDimension {
    D1,
    D2,
    D3,
}

#[derive(Debug, Copy, Clone, Hash, PartialEq, Eq, Structural)]
pub enum TextureViewDimension {
    D1,
    D2,
    D3,
    Cube,
    Array1D,
    Array2D,
    ArrayCube,
}

#[derive(Debug, Copy, Clone, PartialEq, Eq, Structural)]
pub enum SharingMode {
    Exclusive,
    Concurrent,
}

/// The mip levels and array layers of a texture that a view covers.
#[derive(Debug, Copy, Clone, PartialEq, Eq, Structural)]
pub struct ImageSubresourceRange {
    pub aspects: TextureAspects,
    pub base_mip_level: u32,
    pub mip_level_count: u32,
    pub base_array_layer: u32,
    pub array_layer_count: u32,
}

/// Describes a texture to create.
#[derive(Debug, Copy, Clone, PartialEq, Eq, Structural)]
pub struct TextureInfo {
    pub dimension: TextureDimension,
    pub format: TextureFormat,
    pub size: Extent3D,
    pub mip_levels: u32,
    pub samples: u32,
    pub usage: TextureUsages,
    pub sharing: SharingMode,
}

/// Describes a view of a texture to create.
#[derive(Debug, Copy, Clone, PartialEq, Eq, Structural)]
pub struct TextureViewInfo {
    pub dimension: TextureViewDimension,
    pub format: TextureFormat,
    pub range: ImageSubresourceRange,
}

} // verus!
