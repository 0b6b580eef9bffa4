//! Flag sets: typed bit masks with union, intersection and containment.
//!
//! A flag set is its mask. The named masks of a set are constants of the
//! mask's integer type; `from_bits` and `from_bits_truncate` make a set of
//! them, and every operation says what it does to the mask.

use vstd::prelude::*;

verus! {

/// Union, intersection and containment of masks are those of sets: a union
/// contains both masks; an intersection is contained in both; a mask that
/// contains another has every bit that the two have in common with it; and
/// setting the bits of a mask and clearing them again leaves none of them.
pub proof fn lemma_mask_algebra(a: u32, b: u32)
    ensures
        (a | b) & a == a,
        (a | b) & b == b,
        a & (a & b) == a & b,
        b & (a & b) == a & b,
        (a & b == b) ==> (a & b != 0 || b == 0),
        (a & b == b) ==> a | b == a,
        ((a | b) & !b) & b == 0,
        a & 0 == 0,
        a | 0 == a,
{
    assert((a | b) & a == a && (a | b) & b == b && a & (a & b) == a & b && b & (a & b) == a & b
        && ((a & b == b) ==> (a & b != 0 || b == 0)) && ((a & b == b) ==> a | b == a) && ((a | b)
        & !b) & b == 0 && a & 0 == 0 && a | 0 == a) by (bit_vector);
}

/// What a buffer may be used for.
#[derive(Clone, Copy, Debug, PartialEq, Eq, Hash, Structural)]
pub struct BufferUsages {
    pub bits: u32,
}

impl BufferUsages {
    /// The host may map the buffer for reading.
    pub const MAP_READ: u32 = 0x001;
    /// The host may map the buffer for writing.
    pub const MAP_WRITE: u32 = 0x002;
    /// Source of a copy.
    pub const COPY_SRC: u32 = 0x004;
    /// Destination of a copy.
    pub const COPY_DST: u32 = 0x008;
    /// Index buffer of a draw.
    pub const INDEX: u32 = 0x010;
    /// Vertex buffer of a draw.
    pub const VERTEX: u32 = 0x020;
    /// Uniform buffer of a binding.
    pub const UNIFORM: u32 = 0x040;
    /// Read-only storage buffer of a binding.
    pub const STORAGE_READ: u32 = 0x080;
    /// Read-write storage buffer of a binding.
    pub const STORAGE_READ_WRITE: u32 = 0x100;
    /// Holds the arguments of indirect draws.
    pub const INDIRECT: u32 = 0x200;
    /// Every bit that has a name.
    pub const ALL_BITS: u32 = 0x3ff;

    /// The set without flags.
    pub fn empty() -> (set: Self)
        ensures
            set.bits == 0,
    {
        BufferUsages { bits: 0 }
    }

    /// The set of every named flag.
    pub fn all() -> (set: Self)
        ensures
            set.bits == Self::ALL_BITS,
    {
        BufferUsages { bits: Self::ALL_BITS }
    }

    /// The set with the given mask, if every bit of the mask has a name.
    pub fn from_bits(bits: u32) -> (set: Option<Self>)
        ensures
            set == if bits & !Self::ALL_BITS == 0 {
                Some(BufferUsages { bits })
            } else {
                None
            },
    {
        if bits & !Self::ALL_BITS == 0 {
            Some(BufferUsages { bits })
        } else {
            None
        }
    }

    /// The set with the named bits of the given mask.
    pub fn from_bits_truncate(bits: u32) -> (set: Self)
        ensures
            set.bits == bits & Self::ALL_BITS,
    {
        BufferUsages { bits: bits & Self::ALL_BITS }
    }

    /// The mask of the set.
    pub fn bits(&self) -> (bits: u32)
        ensures
            bits == self.bits,
    {
        self.bits
    }

    /// Whether no flag is set.
    pub fn is_empty(&self) -> (empty: bool)
        ensures
            empty == (self.bits == 0),
    {
        self.bits == 0
    }

    /// Whether every flag of `other` is set.
    pub fn contains(&self, other: Self) -> (all_set: bool)
        ensures
            all_set == (self.bits & other.bits == other.bits),
    {
        self.bits & other.bits == other.bits
    }

    /// Whether some flag of `other` is set.
    pub fn intersects(&self, other: Self) -> (some_set: bool)
        ensures
            some_set == (self.bits & other.bits != 0),
    {
        self.bits & other.bits != 0
    }

    /// The flags of either set.
    pub fn union(self, other: Self) -> (set: Self)
        ensures
            set.bits == self.bits | other.bits,
    {
        BufferUsages { bits: self.bits | other.bits }
    }

    /// The flags of both sets.
    pub fn intersection(self, other: Self) -> (set: Self)
        ensures
            set.bits == self.bits & other.bits,
    {
        BufferUsages { bits: self.bits & other.bits }
    }

    /// Sets the flags of `other` where `value` holds, clears them where not.
    pub fn set(&mut self, other: Self, value: bool)
        ensures
            final(self).bits == if value {
                old(self).bits | other.bits
            } else {
                old(self).bits & !other.bits
            },
    {
        if value {
            self.bits = self.bits | other.bits;
        } else {
            self.bits = self.bits & !other.bits;
        }
    }
}

/// What a texture may be used for. The bits are those of the native image usage mask.
#[derive(Clone, Copy, Debug, PartialEq, Eq, Hash, Structural)]
pub struct TextureUsages {
    pub bits: u32,
}

impl TextureUsages {
    pub const TRANSFER_SRC: u32 = 0x001;
    pub const TRANSFER_DST: u32 = 0x002;
    pub const SAMPLED: u32 = 0x004;
    pub const STORAGE: u32 = 0x008;
    pub const COLOR_ATTACHMENT: u32 = 0x010;
    pub const DEPTH_STENCIL_ATTACHMENT: u32 = 0x020;
    pub const TRANSIENT_ATTACHMENT: u32 = 0x040;
    pub const INPUT_ATTACHMENT: u32 = 0x080;
    /// Every bit that has a name.
    pub const ALL_BITS: u32 = 0x0ff;

    /// The set without flags.
    pub fn empty() -> (set: Self)
        ensures
            set.bits == 0,
    {
        TextureUsages { bits: 0 }
    }

    /// The set of every named flag.
    pub fn all() -> (set: Self)
        ensures
            set.bits == Self::ALL_BITS,
    {
        TextureUsages { bits: Self::ALL_BITS }
    }

    /// The set with the given mask, if every bit of the mask has a name.
    pub fn from_bits(bits: u32) -> (set: Option<Self>)
        ensures
            set == if bits & !Self::ALL_BITS == 0 {
                Some(TextureUsages { bits })
            } else {
                None
            },
    {
        if bits & !Self::ALL_BITS == 0 {
            Some(TextureUsages { bits })
        } else {
            None
        }
    }

    /// The set with the named bits of the given mask.
    pub fn from_bits_truncate(bits: u32) -> (set: Self)
        ensures
            set.bits == bits & Self::ALL_BITS,
    {
        TextureUsages { bits: bits & Self::ALL_BITS }
    }

    /// The mask of the set.
    pub fn bits(&self) -> (bits: u32)
        ensures
            bits == self.bits,
    {
        self.bits
    }

    /// Whether no flag is set.
    pub fn is_empty(&self) -> (empty: bool)
        ensures
            empty == (self.bits == 0),
    {
        self.bits == 0
    }

    /// Whether every flag of `other` is set.
    pub fn contains(&self, other: Self) -> (all_set: bool)
        ensures
            all_set == (self.bits & other.bits == other.bits),
    {
        self.bits & other.bits == other.bits
    }

    /// Whether some flag of `other` is set.
    pub fn intersects(&self, other: Self) -> (some_set: bool)
        ensures
            some_set == (self.bits & other.bits != 0),
    {
        self.bits & other.bits != 0
    }

    /// The flags of either set.
    pub fn union(self, other: Self) -> (set: Self)
        ensures
            set.bits == self.bits | other.bits,
    {
        TextureUsages { bits: self.bits | other.bits }
    }

    /// The flags of both sets.
    pub fn intersection(self, other: Self) -> (set: Self)
        ensures
            set.bits == self.bits & other.bits,
    {
        TextureUsages { bits: self.bits & other.bits }
    }

    /// Sets the flags of `other` where `value` holds, clears them where not.
    pub fn set(&mut self, other: Self, value: bool)
        ensures
            final(self).bits == if value {
                old(self).bits | other.bits
            } else {
                old(self).bits & !other.bits
            },
    {
        if value {
            self.bits = self.bits | other.bits;
        } else {
            self.bits = self.bits & !other.bits;
        }
    }
}

/// The aspects of a texture that a view or a barrier covers.
#[derive(Clone, Copy, Debug, PartialEq, Eq, Hash, Structural)]
pub struct TextureAspects {
    pub bits: u32,
}

impl TextureAspects {
    pub const COLOR: u32 = 0x1;
    pub const DEPTH: u32 = 0x2;
    pub const STENCIL: u32 = 0x4;
    pub const METADATA: u32 = 0x8;
    /// Every bit that has a name.
    pub const ALL_BITS: u32 = 0xf;

    /// The set without flags.
    pub fn empty() -> (set: Self)
        ensures
            set.bits == 0,
    {
        TextureAspects { bits: 0 }
    }

    /// The set of every named flag.
    pub fn all() -> (set: Self)
        ensures
            set.bits == Self::ALL_BITS,
    {
        TextureAspects { bits: Self::ALL_BITS }
    }

    /// The set with the given mask, if every bit of the mask has a name.
    pub fn from_bits(bits: u32) -> (set: Option<Self>)
        ensures
            set == if bits & !Self::ALL_BITS == 0 {
                Some(TextureAspects { bits })
            } else {
                None
            },
    {
        if bits & !Self::ALL_BITS == 0 {
            Some(TextureAspects { bits })
        } else {
            None
        }
    }

    /// The set with the named bits of the given mask.
    pub fn from_bits_truncate(bits: u32) -> (set: Self)
        ensures
            set.bits == bits & Self::ALL_BITS,
    {
        TextureAspects { bits: bits & Self::ALL_BITS }
    }

    /// The mask of the set.
    pub fn bits(&self) -> (bits: u32)
        ensures
            bits == self.bits,
    {
        self.bits
    }

    /// Whether no flag is set.
    pub fn is_empty(&self) -> (empty: bool)
        ensures
            empty == (self.bits == 0),
    {
        self.bits == 0
    }

    /// Whether every flag of `other` is set.
    pub fn contains(&self, other: Self) -> (all_set: bool)
        ensures
            all_set == (self.bits & other.bits == other.bits),
    {
        self.bits & other.bits == other.bits
    }

    /// Whether some flag of `other` is set.
    pub fn intersects(&self, other: Self) -> (some_set: bool)
        ensures
            some_set == (self.bits & other.bits != 0),
    {
        self.bits & other.bits != 0
    }

    /// The flags of either set.
    pub fn union(self, other: Self) -> (set: Self)
        ensures
            set.bits == self.bits | other.bits,
    {
        TextureAspects { bits: self.bits | other.bits }
    }

    /// The flags of both sets.
    pub fn intersection(self, other: Self) -> (set: Self)
        ensures
            set.bits == self.bits & other.bits,
    {
        TextureAspects { bits: self.bits & other.bits }
    }

    /// Sets the flags of `other` where `value` holds, clears them where not.
    pub fn set(&mut self, other: Self, value: bool)
        ensures
            final(self).bits == if value {
                old(self).bits | other.bits
            } else {
                old(self).bits & !other.bits
            },
    {
        if value {
            self.bits = self.bits | other.bits;
        } else {
            self.bits = self.bits & !other.bits;
        }
    }
}

/// Color write mask. Disabled color channels are not written to.
#[derive(Clone, Copy, Debug, PartialEq, Eq, Hash, Structural)]
pub struct ColorWrites {
    pub bits: u32,
}

impl ColorWrites {
    /// Enable red channel writes.
    pub const RED: u32 = 0x1;
    /// Enable green channel writes.
    pub const GREEN: u32 = 0x2;
    /// Enable blue channel writes.
    pub const BLUE: u32 = 0x4;
    /// Enable alpha channel writes.
    pub const ALPHA: u32 = 0x8;
    /// Enable red, green and blue channel writes.
    pub const COLOR: u32 = 0x7;
    /// Enable writes to all channels.
    pub const ALL: u32 = 0xf;
    /// Every bit that has a name.
    pub const ALL_BITS: u32 = 0xf;

    /// The set without flags.
    pub fn empty() -> (set: Self)
        ensures
            set.bits == 0,
    {
        ColorWrites { bits: 0 }
    }

    /// The set of every named flag.
    pub fn all() -> (set: Self)
        ensures
            set.bits == Self::ALL_BITS,
    {
        ColorWrites { bits: Self::ALL_BITS }
    }

    /// The set with the given mask, if every bit of the mask has a name.
    pub fn from_bits(bits: u32) -> (set: Option<Self>)
        ensures
            set == if bits & !Self::ALL_BITS == 0 {
                Some(ColorWrites { bits })
            } else {
                None
            },
    {
        if bits & !Self::ALL_BITS == 0 {
            Some(ColorWrites { bits })
        } else {
            None
        }
    }

    /// The set with the named bits of the given mask.
    pub fn from_bits_truncate(bits: u32) -> (set: Self)
        ensures
            set.bits == bits & Self::ALL_BITS,
    {
        ColorWrites { bits: bits & Self::ALL_BITS }
    }

    /// The mask of the set.
    pub fn bits(&self) -> (bits: u32)
        ensures
            bits == self.bits,
    {
        self.bits
    }

    /// Whether no flag is set.
    pub fn is_empty(&self) -> (empty: bool)
        ensures
            empty == (self.bits == 0),
    {
        self.bits == 0
    }

    /// Whether every flag of `other` is set.
    pub fn contains(&self, other: Self) -> (all_set: bool)
        ensures
            all_set == (self.bits & other.bits == other.bits),
    {
        self.bits & other.bits == other.bits
    }

    /// Whether some flag of `other` is set.
    pub fn intersects(&self, other: Self) -> (some_set: bool)
        ensures
            some_set == (self.bits & other.bits != 0),
    {
        self.bits & other.bits != 0
    }

    /// The flags of either set.
    pub fn union(self, other: Self) -> (set: Self)
        ensures
            set.bits == self.bits | other.bits,
    {
        ColorWrites { bits: self.bits | other.bits }
    }

    /// The flags of both sets.
    pub fn intersection(self, other: Self) -> (set: Self)
        ensures
            set.bits == self.bits & other.bits,
    {
        ColorWrites { bits: self.bits & other.bits }
    }

    /// Sets the flags of `other` where `value` holds, clears them where not.
    pub fn set(&mut self, other: Self, value: bool)
        ensures
            final(self).bits == if value {
                old(self).bits | other.bits
            } else {
                old(self).bits & !other.bits
            },
    {
        if value {
            self.bits = self.bits | other.bits;
        } else {
            self.bits = self.bits & !other.bits;
        }
    }
}

/// Pipeline stages that a barrier waits for or blocks. The low seventeen bits are those of the native pipeline stage mask.
#[derive(Clone, Copy, Debug, PartialEq, Eq, Hash, Structural)]
pub struct StageFlags {
    pub bits: u32,
}

impl StageFlags {
    pub const NONE: u32 = 0x00000000;
    pub const TOP_OF_PIPE: u32 = 0x00000001;
    pub const DRAW_INDIRECT: u32 = 0x00000002;
    pub const VERTEX_INPUT: u32 = 0x00000004;
    pub const VERTEX_SHADER: u32 = 0x00000008;
    pub const TESSELLATION_CONTROL_SHADER: u32 = 0x00000010;
    pub const TESSELLATION_EVALUATION_SHADER: u32 = 0x00000020;
    pub const GEOMETRY_SHADER: u32 = 0x00000040;
    pub const FRAGMENT_SHADER: u32 = 0x00000080;
    pub const EARLY_FRAGMENT_TESTS: u32 = 0x00000100;
    pub const LATE_FRAGMENT_TESTS: u32 = 0x00000200;
    pub const COLOR_ATTACHMENT_OUTPUT: u32 = 0x00000400;
    pub const COMPUTE_SHADER: u32 = 0x00000800;
    pub const ALL_TRANSFER: u32 = 0x00001000;
    pub const BOTTOM_OF_PIPE: u32 = 0x00002000;
    pub const HOST: u32 = 0x00004000;
    pub const ALL_GRAPHICS: u32 = 0x00008000;
    pub const ALL_COMMANDS: u32 = 0x00010000;
    pub const COPY: u32 = 0x00020000;
    pub const RESOLVE: u32 = 0x00040000;
    pub const BLIT: u32 = 0x00080000;
    pub const CLEAR: u32 = 0x00100000;
    pub const INDEX_INPUT: u32 = 0x00200000;
    pub const VERTEX_ATTRIBUTE_INPUT: u32 = 0x00400000;
    pub const PRE_RASTERIZATION_SHADERS: u32 = 0x00800000;
    /// Every bit that has a name.
    pub const ALL_BITS: u32 = 0x00ffffff;

    /// The set without flags.
    pub fn empty() -> (set: Self)
        ensures
            set.bits == 0,
    {
        StageFlags { bits: 0 }
    }

    /// The set of every named flag.
    pub fn all() -> (set: Self)
        ensures
            set.bits == Self::ALL_BITS,
    {
        StageFlags { bits: Self::ALL_BITS }
    }

    /// The set with the given mask, if every bit of the mask has a name.
    pub fn from_bits(bits: u32) -> (set: Option<Self>)
        ensures
            set == if bits & !Self::ALL_BITS == 0 {
                Some(StageFlags { bits })
            } else {
                None
            },
    {
        if bits & !Self::ALL_BITS == 0 {
            Some(StageFlags { bits })
        } else {
            None
        }
    }

    /// The set with the named bits of the given mask.
    pub fn from_bits_truncate(bits: u32) -> (set: Self)
        ensures
            set.bits == bits & Self::ALL_BITS,
    {
        StageFlags { bits: bits & Self::ALL_BITS }
    }

    /// The mask of the set.
    pub fn bits(&self) -> (bits: u32)
        ensures
            bits == self.bits,
    {
        self.bits
    }

    /// Whether no flag is set.
    pub fn is_empty(&self) -> (empty: bool)
        ensures
            empty == (self.bits == 0),
    {
        self.bits == 0
    }

    /// Whether every flag of `other` is set.
    pub fn contains(&self, other: Self) -> (all_set: bool)
        ensures
            all_set == (self.bits & other.bits == other.bits),
    {
        self.bits & other.bits == other.bits
    }

    /// Whether some flag of `other` is set.
    pub fn intersects(&self, other: Self) -> (some_set: bool)
        ensures
            some_set == (self.bits & other.bits != 0),
    {
        self.bits & other.bits != 0
    }

    /// The flags of either set.
    pub fn union(self, other: Self) -> (set: Self)
        ensures
            set.bits == self.bits | other.bits,
    {
        StageFlags { bits: self.bits | other.bits }
    }

    /// The flags of both sets.
    pub fn intersection(self, other: Self) -> (set: Self)
        ensures
            set.bits == self.bits & other.bits,
    {
        StageFlags { bits: self.bits & other.bits }
    }

    /// Sets the flags of `other` where `value` holds, clears them where not.
    pub fn set(&mut self, other: Self, value: bool)
        ensures
            final(self).bits == if value {
                old(self).bits | other.bits
            } else {
                old(self).bits & !other.bits
            },
    {
        if value {
            self.bits = self.bits | other.bits;
        } else {
            self.bits = self.bits & !other.bits;
        }
    }
}

/// Kinds of memory access that a barrier makes available or visible. The low seventeen bits are those of the native access mask.
#[derive(Clone, Copy, Debug, PartialEq, Eq, Hash, Structural)]
pub struct AccessFlags {
    pub bits: u64,
}

impl AccessFlags {
    pub const NONE: u64 = 0x00000;
    pub const INDIRECT_COMMAND_READ: u64 = 0x00001;
    pub const INDEX_READ: u64 = 0x00002;
    pub const VERTEX_ATTRIBUTE_READ: u64 = 0x00004;
    pub const UNIFORM_READ: u64 = 0x00008;
    pub const INPUT_ATTACHMENT_READ: u64 = 0x00010;
    pub const SHADER_READ: u64 = 0x00020;
    pub const SHADER_WRITE: u64 = 0x00040;
    pub const COLOR_ATTACHMENT_READ: u64 = 0x00080;
    pub const COLOR_ATTACHMENT_WRITE: u64 = 0x00100;
    pub const DEPTH_STENCIL_ATTACHMENT_READ: u64 = 0x00200;
    pub const DEPTH_STENCIL_ATTACHMENT_WRITE: u64 = 0x00400;
    pub const TRANSFER_READ: u64 = 0x00800;
    pub const TRANSFER_WRITE: u64 = 0x01000;
    pub const HOST_READ: u64 = 0x02000;
    pub const HOST_WRITE: u64 = 0x04000;
    pub const MEMORY_READ: u64 = 0x08000;
    pub const MEMORY_WRITE: u64 = 0x10000;
    pub const SHADER_SAMPLED_READ: u64 = 0x20000;
    pub const SHADER_STORAGE_READ: u64 = 0x40000;
    pub const SHADER_STORAGE_WRITE: u64 = 0x80000;
    /// Every bit that has a name.
    pub const ALL_BITS: u64 = 0xfffff;

    /// The set without flags.
    pub fn empty() -> (set: Self)
        ensures
            set.bits == 0,
    {
        AccessFlags { bits: 0 }
    }

    /// The set of every named flag.
    pub fn all() -> (set: Self)
        ensures
            set.bits == Self::ALL_BITS,
    {
        AccessFlags { bits: Self::ALL_BITS }
    }

    /// The set with the given mask, if every bit of the mask has a name.
    pub fn from_bits(bits: u64) -> (set: Option<Self>)
        ensures
            set == if bits & !Self::ALL_BITS == 0 {
                Some(AccessFlags { bits })
            } else {
                None
            },
    {
        if bits & !Self::ALL_BITS == 0 {
            Some(AccessFlags { bits })
        } else {
            None
        }
    }

    /// The set with the named bits of the given mask.
    pub fn from_bits_truncate(bits: u64) -> (set: Self)
        ensures
            set.bits == bits & Self::ALL_BITS,
    {
        AccessFlags { bits: bits & Self::ALL_BITS }
    }

    /// The mask of the set.
    pub fn bits(&self) -> (bits: u64)
        ensures
            bits == self.bits,
    {
        self.bits
    }

    /// Whether no flag is set.
    pub fn is_empty(&self) -> (empty: bool)
        ensures
            empty == (self.bits == 0),
    {
        self.bits == 0
    }

    /// Whether every flag of `other` is set.
    pub fn contains(&self, other: Self) -> (all_set: bool)
        ensures
            all_set == (self.bits & other.bits == other.bits),
    {
        self.bits & other.bits == other.bits
    }

    /// Whether some flag of `other` is set.
    pub fn intersects(&self, other: Self) -> (some_set: bool)
        ensures
            some_set == (self.bits & other.bits != 0),
    {
        self.bits & other.bits != 0
    }

    /// The flags of either set.
    pub fn union(self, other: Self) -> (set: Self)
        ensures
            set.bits == self.bits | other.bits,
    {
        AccessFlags { bits: self.bits | other.bits }
    }

    /// The flags of both sets.
    pub fn intersection(self, other: Self) -> (set: Self)
        ensures
            set.bits == self.bits & other.bits,
    {
        AccessFlags { bits: self.bits & other.bits }
    }

    /// Sets the flags of `other` where `value` holds, clears them where not.
    pub fn set(&mut self, other: Self, value: bool)
        ensures
            final(self).bits == if value {
                old(self).bits | other.bits
            } else {
                old(self).bits & !other.bits
            },
    {
        if value {
            self.bits = self.bits | other.bits;
        } else {
            self.bits = self.bits & !other.bits;
        }
    }
}

/// The shader stages that see a binding or a push-constant range.
#[derive(Clone, Copy, Debug, PartialEq, Eq, Hash, Structural)]
pub struct ShaderStages {
    pub bits: u32,
}

impl ShaderStages {
    pub const NONE: u32 = 0x0;
    pub const VERTEX: u32 = 0x1;
    pub const FRAGMENT: u32 = 0x2;
    pub const COMPUTE: u32 = 0x4;
    pub const VERTEX_FRAGMENT: u32 = 0x3;
    /// Every bit that has a name.
    pub const ALL_BITS: u32 = 0x7;

    /// The set without flags.
    pub fn empty() -> (set: Self)
        ensures
            set.bits == 0,
    {
        ShaderStages { bits: 0 }
    }

    /// The set of every named flag.
    pub fn all() -> (set: Self)
        ensures
            set.bits == Self::ALL_BITS,
    {
        ShaderStages { bits: Self::ALL_BITS }
    }

    /// The set with the given mask, if every bit of the mask has a name.
    pub fn from_bits(bits: u32) -> (set: Option<Self>)
        ensures
            set == if bits & !Self::ALL_BITS == 0 {
                Some(ShaderStages { bits })
            } else {
                None
            },
    {
        if bits & !Self::ALL_BITS == 0 {
            Some(ShaderStages { bits })
        } else {
            None
        }
    }

    /// The set with the named bits of the given mask.
    pub fn from_bits_truncate(bits: u32) -> (set: Self)
        ensures
            set.bits == bits & Self::ALL_BITS,
    {
        ShaderStages { bits: bits & Self::ALL_BITS }
    }

    /// The mask of the set.
    pub fn bits(&self) -> (bits: u32)
        ensures
            bits == self.bits,
    {
        self.bits
    }

    /// Whether no flag is set.
    pub fn is_empty(&self) -> (empty: bool)
        ensures
            empty == (self.bits == 0),
    {
        self.bits == 0
    }

    /// Whether every flag of `other` is set.
    pub fn contains(&self, other: Self) -> (all_set: bool)
        ensures
            all_set == (self.bits & other.bits == other.bits),
    {
        self.bits & other.bits == other.bits
    }

    /// Whether some flag of `other` is set.
    pub fn intersects(&self, other: Self) -> (some_set: bool)
        ensures
            some_set == (self.bits & other.bits != 0),
    {
        self.bits & other.bits != 0
    }

    /// The flags of either set.
    pub fn union(self, other: Self) -> (set: Self)
        ensures
            set.bits == self.bits | other.bits,
    {
        ShaderStages { bits: self.bits | other.bits }
    }

    /// The flags of both sets.
    pub fn intersection(self, other: Self) -> (set: Self)
        ensures
            set.bits == self.bits & other.bits,
    {
        ShaderStages { bits: self.bits & other.bits }
    }

    /// Sets the flags of `other` where `value` holds, clears them where not.
    pub fn set(&mut self, other: Self, value: bool)
        ensures
            final(self).bits == if value {
                old(self).bits | other.bits
            } else {
                old(self).bits & !other.bits
            },
    {
        if value {
            self.bits = self.bits | other.bits;
        } else {
            self.bits = self.bits & !other.bits;
        }
    }
}

/// Properties of a pipeline that its commands depend on.
#[derive(Clone, Copy, Debug, PartialEq, Eq, Hash, Structural)]
pub struct PipelineFlags {
    pub bits: u32,
}

impl PipelineFlags {
    pub const BLEND_CONSTANT: u32 = 0x1;
    pub const STENCIL_REFERENCE: u32 = 0x2;
    pub const WRITES_DEPTH_STENCIL: u32 = 0x4;
    /// Every bit that has a name.
    pub const ALL_BITS: u32 = 0x7;

    /// The set without flags.
    pub fn empty() -> (set: Self)
        ensures
            set.bits == 0,
    {
        PipelineFlags { bits: 0 }
    }

    /// The set of every named flag.
    pub fn all() -> (set: Self)
        ensures
            set.bits == Self::ALL_BITS,
    {
        PipelineFlags { bits: Self::ALL_BITS }
    }

    /// The set with the given mask, if every bit of the mask has a name.
    pub fn from_bits(bits: u32) -> (set: Option<Self>)
        ensures
            set == if bits & !Self::ALL_BITS == 0 {
                Some(PipelineFlags { bits })
            } else {
                None
            },
    {
        if bits & !Self::ALL_BITS == 0 {
            Some(PipelineFlags { bits })
        } else {
            None
        }
    }

    /// The set with the named bits of the given mask.
    pub fn from_bits_truncate(bits: u32) -> (set: Self)
        ensures
            set.bits == bits & Self::ALL_BITS,
    {
        PipelineFlags { bits: bits & Self::ALL_BITS }
    }

    /// The mask of the set.
    pub fn bits(&self) -> (bits: u32)
        ensures
            bits == self.bits,
    {
        self.bits
    }

    /// Whether no flag is set.
    pub fn is_empty(&self) -> (empty: bool)
        ensures
            empty == (self.bits == 0),
    {
        self.bits == 0
    }

    /// Whether every flag of `other` is set.
    pub fn contains(&self, other: Self) -> (all_set: bool)
        ensures
            all_set == (self.bits & other.bits == other.bits),
    {
        self.bits & other.bits == other.bits
    }

    /// Whether some flag of `other` is set.
    pub fn intersects(&self, other: Self) -> (some_set: bool)
        ensures
            some_set == (self.bits & other.bits != 0),
    {
        self.bits & other.bits != 0
    }

    /// The flags of either set.
    pub fn union(self, other: Self) -> (set: Self)
        ensures
            set.bits == self.bits | other.bits,
    {
        PipelineFlags { bits: self.bits | other.bits }
    }

    /// The flags of both sets.
    pub fn intersection(self, other: Self) -> (set: Self)
        ensures
            set.bits == self.bits & other.bits,
    {
        PipelineFlags { bits: self.bits & other.bits }
    }

    /// Sets the flags of `other` where `value` holds, clears them where not.
    pub fn set(&mut self, other: Self, value: bool)
        ensures
            final(self).bits == if value {
                old(self).bits | other.bits
            } else {
                old(self).bits & !other.bits
            },
    {
        if value {
            self.bits = self.bits | other.bits;
        } else {
            self.bits = self.bits & !other.bits;
        }
    }
}

/// Pipeline layout creation flags.
#[derive(Clone, Copy, Debug, PartialEq, Eq, Hash, Structural)]
pub struct PipelineLayoutFlags {
    pub bits: u32,
}

impl PipelineLayoutFlags {
    /// Include support for base vertex and base instance drawing.
    pub const BASE_VERTEX_INSTANCE: u32 = 0x1;
    /// Include support for the work group count builtin.
    pub const NUM_WORK_GROUPS: u32 = 0x2;
    /// Every bit that has a name.
    pub const ALL_BITS: u32 = 0x3;

    /// The set without flags.
    pub fn empty() -> (set: Self)
        ensures
            set.bits == 0,
    {
        PipelineLayoutFlags { bits: 0 }
    }

    /// The set of every named flag.
    pub fn all() -> (set: Self)
        ensures
            set.bits == Self::ALL_BITS,
    {
        PipelineLayoutFlags { bits: Self::ALL_BITS }
    }

    /// The set with the given mask, if every bit of the mask has a name.
    pub fn from_bits(bits: u32) -> (set: Option<Self>)
        ensures
            set == if bits & !Self::ALL_BITS == 0 {
                Some(PipelineLayoutFlags { bits })
            } else {
                None
            },
    {
        if bits & !Self::ALL_BITS == 0 {
            Some(PipelineLayoutFlags { bits })
        } else {
            None
        }
    }

    /// The set with the named bits of the given mask.
    pub fn from_bits_truncate(bits: u32) -> (set: Self)
        ensures
            set.bits == bits & Self::ALL_BITS,
    {
        PipelineLayoutFlags { bits: bits & Self::ALL_BITS }
    }

    /// The mask of the set.
    pub fn bits(&self) -> (bits: u32)
        ensures
            bits == self.bits,
    {
        self.bits
    }

    /// Whether no flag is set.
    pub fn is_empty(&self) -> (empty: bool)
        ensures
            empty == (self.bits == 0),
    {
        self.bits == 0
    }

    /// Whether every flag of `other` is set.
    pub fn contains(&self, other: Self) -> (all_set: bool)
        ensures
            all_set == (self.bits & other.bits == other.bits),
    {
        self.bits & other.bits == other.bits
    }

    /// Whether some flag of `other` is set.
    pub fn intersects(&self, other: Self) -> (some_set: bool)
        ensures
            some_set == (self.bits & other.bits != 0),
    {
        self.bits & other.bits != 0
    }

    /// The flags of either set.
    pub fn union(self, other: Self) -> (set: Self)
        ensures
            set.bits == self.bits | other.bits,
    {
        PipelineLayoutFlags { bits: self.bits | other.bits }
    }

    /// The flags of both sets.
    pub fn intersection(self, other: Self) -> (set: Self)
        ensures
            set.bits == self.bits & other.bits,
    {
        PipelineLayoutFlags { bits: self.bits & other.bits }
    }

    /// Sets the flags of `other` where `value` holds, clears them where not.
    pub fn set(&mut self, other: Self, value: bool)
        ensures
            final(self).bits == if value {
                old(self).bits | other.bits
            } else {
                old(self).bits & !other.bits
            },
    {
        if value {
            self.bits = self.bits | other.bits;
        } else {
            self.bits = self.bits & !other.bits;
        }
    }
}

/// Which faces rasterization discards.
#[derive(Clone, Copy, Debug, PartialEq, Eq, Hash, Structural)]
pub struct CullModeFlags {
    pub bits: u32,
}

impl CullModeFlags {
    pub const NONE: u32 = 0x0;
    pub const FRONT: u32 = 0x1;
    pub const BACK: u32 = 0x2;
    pub const FRONT_BACK: u32 = 0x4;
    /// Every bit that has a name.
    pub const ALL_BITS: u32 = 0x7;

    /// The set without flags.
    pub fn empty() -> (set: Self)
        ensures
            set.bits == 0,
    {
        CullModeFlags { bits: 0 }
    }

    /// The set of every named flag.
    pub fn all() -> (set: Self)
        ensures
            set.bits == Self::ALL_BITS,
    {
        CullModeFlags { bits: Self::ALL_BITS }
    }

    /// The set with the given mask, if every bit of the mask has a name.
    pub fn from_bits(bits: u32) -> (set: Option<Self>)
        ensures
            set == if bits & !Self::ALL_BITS == 0 {
                Some(CullModeFlags { bits })
            } else {
                None
            },
    {
        if bits & !Self::ALL_BITS == 0 {
            Some(CullModeFlags { bits })
        } else {
            None
        }
    }

    /// The set with the named bits of the given mask.
    pub fn from_bits_truncate(bits: u32) -> (set: Self)
        ensures
            set.bits == bits & Self::ALL_BITS,
    {
        CullModeFlags { bits: bits & Self::ALL_BITS }
    }

    /// The mask of the set.
    pub fn bits(&self) -> (bits: u32)
        ensures
            bits == self.bits,
    {
        self.bits
    }

    /// Whether no flag is set.
    pub fn is_empty(&self) -> (empty: bool)
        ensures
            empty == (self.bits == 0),
    {
        self.bits == 0
    }

    /// Whether every flag of `other` is set.
    pub fn contains(&self, other: Self) -> (all_set: bool)
        ensures
            all_set == (self.bits & other.bits == other.bits),
    {
        self.bits & other.bits == other.bits
    }

    /// Whether some flag of `other` is set.
    pub fn intersects(&self, other: Self) -> (some_set: bool)
        ensures
            some_set == (self.bits & other.bits != 0),
    {
        self.bits & other.bits != 0
    }

    /// The flags of either set.
    pub fn union(self, other: Self) -> (set: Self)
        ensures
            set.bits == self.bits | other.bits,
    {
        CullModeFlags { bits: self.bits | other.bits }
    }

    /// The flags of both sets.
    pub fn intersection(self, other: Self) -> (set: Self)
        ensures
            set.bits == self.bits & other.bits,
    {
        CullModeFlags { bits: self.bits & other.bits }
    }

    /// Sets the flags of `other` where `value` holds, clears them where not.
    pub fn set(&mut self, other: Self, value: bool)
        ensures
            final(self).bits == if value {
                old(self).bits | other.bits
            } else {
                old(self).bits & !other.bits
            },
    {
        if value {
            self.bits = self.bits | other.bits;
        } else {
            self.bits = self.bits & !other.bits;
        }
    }
}

} // verus!
