//! Textures and texture views.

use vstd::prelude::*;
use crate::conv::{
    map_extent3d, map_sharing_mode, map_texture_dimension, map_texture_format,
    map_texture_subresource_range, map_texture_usages, map_texture_view_dimension,
    native_image_type, native_image_view_type, native_sharing_mode, native_subresource_range,
};
use crate::device::Device;
use crate::flags::TextureUsages;
use crate::memory::{Creation, Deallocate, MemoryBlock, Stage};
use crate::native;
use crate::types::{TextureInfo, TextureViewInfo};

verus! {

/// A texture: the native image, what it may be used for, and the memory block
/// that backs it, if the texture owns one.
#[derive(Debug, PartialEq, Eq)]
pub struct Texture {
    pub handle: u64,
    pub usage: TextureUsages,
    pub block: Option<MemoryBlock>,
}

/// A view of a texture. It does not own the texture.
#[derive(Clone, Copy, Debug, PartialEq, Eq, Structural)]
pub struct TextureView {
    pub handle: u64,
}

/// One acquired presentable image and its view.
#[derive(Debug, PartialEq, Eq)]
pub struct Frame {
    pub texture: Texture,
    pub view: TextureView,
}

/// The native image of a texture: optimally tiled, in the undefined layout,
/// with as many array layers as the texture is deep.
pub open spec fn native_image_info(info: TextureInfo) -> native::ImageCreateInfo {
    native::ImageCreateInfo {
        image_type: native_image_type(info.dimension),
        format: info.format.native_code(),
        extent: native::Extent3D {
            width: info.size.width,
            height: info.size.height,
            depth: info.size.depth,
        },
        mip_levels: info.mip_levels,
        array_layers: info.size.depth,
        samples: info.samples,
        tiling: native::IMAGE_TILING_OPTIMAL,
        usage: info.usage.bits,
        sharing_mode: native_sharing_mode(info.sharing),
        initial_layout: native::IMAGE_LAYOUT_UNDEFINED,
    }
}

/// The native view of a texture: a view of the texture's image with the
/// dimension, the format and the range of the descriptor, and no flag.
pub open spec fn native_image_view_info(
    info: TextureViewInfo,
    texture: Texture,
) -> native::ImageViewCreateInfo {
    native::ImageViewCreateInfo {
        flags: 0,
        image: texture.handle,
        view_type: native_image_view_type(info.dimension),
        format: info.format.native_code(),
        subresource_range: native_subresource_range(info.range),
    }
}

impl Texture {
    /// The texture that a finished creation made for `info`: it has the
    /// usage of the descriptor and owns the block.
    pub fn new(info: &TextureInfo, object: u64, block: MemoryBlock) -> (texture: Texture)
        ensures
            texture == (Texture { handle: object, usage: info.usage, block: Some(block) }),
    {
        Texture { handle: object, usage: info.usage, block: Some(block) }
    }
}

impl<E> Device<E> {
    /// Begins the creation of a texture. Its memory is the one that the
    /// device reaches fastest, and nothing is written into it.
    pub fn create_texture(&self, info: &TextureInfo) -> (creation: (
        native::ImageCreateInfo,
        Creation<'static>,
    ))
        ensures
            creation.0 == native_image_info(*info),
            creation.1.stage == Stage::Start,
            creation.1.usage == native::ALLOC_USAGE_FAST_DEVICE_ACCESS,
            creation.1.contents@.len() == 0,
    {
        (
            native::ImageCreateInfo {
                image_type: map_texture_dimension(info.dimension),
                format: map_texture_format(info.format),
                extent: map_extent3d(info.size),
                mip_levels: info.mip_levels,
                array_layers: info.size.depth,
                samples: info.samples,
                tiling: native::IMAGE_TILING_OPTIMAL,
                usage: map_texture_usages(info.usage),
                sharing_mode: map_sharing_mode(info.sharing),
                initial_layout: native::IMAGE_LAYOUT_UNDEFINED,
            },
            Creation::new(native::ALLOC_USAGE_FAST_DEVICE_ACCESS, &[]),
        )
    }

    /// What freeing a texture releases: the block that the texture owns, if
    /// it owns one, goes back to the sub-allocator.
    pub fn free_texture(&self, texture: Texture) -> (released: Option<Deallocate>)
        ensures
            released == match texture.block {
                Some(block) => Some(Deallocate { block }),
                None => None,
            },
    {
        match texture.block {
            Some(block) => Some(Deallocate { block }),
            None => None,
        }
    }

    /// What the native view of `texture` is created from.
    pub fn create_texture_view(&self, info: &TextureViewInfo, texture: &Texture) -> (view:
        native::ImageViewCreateInfo)
        ensures
            view == native_image_view_info(*info, *texture),
    {
        native::ImageViewCreateInfo {
            flags: 0,
            image: texture.handle,
            view_type: map_texture_view_dimension(info.dimension),
            format: map_texture_format(info.format),
            subresource_range: map_texture_subresource_range(info.range),
        }
    }
}

} // verus!
