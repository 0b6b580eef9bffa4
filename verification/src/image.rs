//! Color spaces of presentable images and the layouts an image moves between.

use vstd::prelude::*;
use crate::native;

verus! {

/// Color space of a presentable image.
#[derive(Debug, Copy, Clone, PartialEq, Eq, Structural)]
pub enum TextureFormatColorSpace {
    SrgbNonLinear,
    VkColorSpaceDisplayP3NonlinearExt,
    VkColorSpaceExtendedSrgbLinearExt,
    VkColorSpaceDisplayP3LinearExt,
    VkColorSpaceDciP3NonlinearExt,
    VkColorSpaceBt709LinearExt,
    VkColorSpaceBt709NonlinearExt,
    VkColorSpaceBt2020LinearExt,
    VkColorSpaceHdr10St2084Ext,
    VkColorSpaceDolbyvisionExt,
    VkColorSpaceHdr10HlgExt,
    VkColorSpaceAdobergbLinearExt,
    VkColorSpaceAdobergbNonlinearExt,
    VkColorSpacePassThroughExt,
    VkColorSpaceExtendedSrgbNonlinearExt,
    VkColorSpaceDisplayNativeAmd,
}

impl TextureFormatColorSpace {
    /// The native code of the color space. The color spaces of the swapchain
    /// color space extension are numbered from 1000104001 in the order of
    /// their declaration.
    pub open spec fn native_code(self) -> i32 {
        match self {
            TextureFormatColorSpace::SrgbNonLinear => 0,
            TextureFormatColorSpace::VkColorSpaceDisplayP3NonlinearExt => 1000104001,
            TextureFormatColorSpace::VkColorSpaceExtendedSrgbLinearExt => 1000104002,
            TextureFormatColorSpace::VkColorSpaceDisplayP3LinearExt => 1000104003,
            TextureFormatColorSpace::VkColorSpaceDciP3NonlinearExt => 1000104004,
            TextureFormatColorSpace::VkColorSpaceBt709LinearExt => 1000104005,
            TextureFormatColorSpace::VkColorSpaceBt709NonlinearExt => 1000104006,
            TextureFormatColorSpace::VkColorSpaceBt2020LinearExt => 1000104007,
            TextureFormatColorSpace::VkColorSpaceHdr10St2084Ext => 1000104008,
            TextureFormatColorSpace::VkColorSpaceDolbyvisionExt => 1000104009,
            TextureFormatColorSpace::VkColorSpaceHdr10HlgExt => 1000104010,
            TextureFormatColorSpace::VkColorSpaceAdobergbLinearExt => 1000104011,
            TextureFormatColorSpace::VkColorSpaceAdobergbNonlinearExt => 1000104012,
            TextureFormatColorSpace::VkColorSpacePassThroughExt => 1000104013,
            TextureFormatColorSpace::VkColorSpaceExtendedSrgbNonlinearExt => 1000104014,
            TextureFormatColorSpace::VkColorSpaceDisplayNativeAmd => 1000213000,
        }
    }

    /// The native code of the color space.
    pub fn code(self) -> (code: i32)
        ensures
            code == self.native_code(),
    {
        match self {
            TextureFormatColorSpace::SrgbNonLinear => 0,
            TextureFormatColorSpace::VkColorSpaceDisplayP3NonlinearExt => 1000104001,
            TextureFormatColorSpace::VkColorSpaceExtendedSrgbLinearExt => 1000104002,
            TextureFormatColorSpace::VkColorSpaceDisplayP3LinearExt => 1000104003,
            TextureFormatColorSpace::VkColorSpaceDciP3NonlinearExt => 1000104004,
            TextureFormatColorSpace::VkColorSpaceBt709LinearExt => 1000104005,
            TextureFormatColorSpace::VkColorSpaceBt709NonlinearExt => 1000104006,
            TextureFormatColorSpace::VkColorSpaceBt2020LinearExt => 1000104007,
            TextureFormatColorSpace::VkColorSpaceHdr10St2084Ext => 1000104008,
            TextureFormatColorSpace::VkColorSpaceDolbyvisionExt => 1000104009,
            TextureFormatColorSpace::VkColorSpaceHdr10HlgExt => 1000104010,
            TextureFormatColorSpace::VkColorSpaceAdobergbLinearExt => 1000104011,
            TextureFormatColorSpace::VkColorSpaceAdobergbNonlinearExt => 1000104012,
            TextureFormatColorSpace::VkColorSpacePassThroughExt => 1000104013,
            TextureFormatColorSpace::VkColorSpaceExtendedSrgbNonlinearExt => 1000104014,
            TextureFormatColorSpace::VkColorSpaceDisplayNativeAmd => 1000213000,
        }
    }
}

/// A layout that an image is moved out of or into.
#[derive(Debug, Copy, Clone, PartialEq, Eq, Structural)]
pub enum ImageTransitionLayout {
    Undefined,
    General,
    ColorAttachment,
    DepthStencilAttachment,
    DepthStencilReadOnly,
    ShaderReadOnly,
    TransferSrc,
    TransferDst,
    Preinitialized,
    Present,
}

impl ImageTransitionLayout {
    /// The native image layout.
    pub open spec fn native_layout(self) -> i32 {
        match self {
            ImageTransitionLayout::Undefined => native::IMAGE_LAYOUT_UNDEFINED,
            ImageTransitionLayout::General => native::IMAGE_LAYOUT_GENERAL,
            ImageTransitionLayout::ColorAttachment =>
                native::IMAGE_LAYOUT_COLOR_ATTACHMENT_OPTIMAL,
            ImageTransitionLayout::DepthStencilAttachment =>
                native::IMAGE_LAYOUT_DEPTH_STENCIL_ATTACHMENT_OPTIMAL,
            ImageTransitionLayout::DepthStencilReadOnly =>
                native::IMAGE_LAYOUT_DEPTH_STENCIL_READ_ONLY_OPTIMAL,
            ImageTransitionLayout::ShaderReadOnly =>
                native::IMAGE_LAYOUT_SHADER_READ_ONLY_OPTIMAL,
            ImageTransitionLayout::TransferSrc => native::IMAGE_LAYOUT_TRANSFER_SRC_OPTIMAL,
            ImageTransitionLayout::TransferDst => native::IMAGE_LAYOUT_TRANSFER_DST_OPTIMAL,
            ImageTransitionLayout::Preinitialized => native::IMAGE_LAYOUT_PREINITIALIZED,
            ImageTransitionLayout::Present => native::IMAGE_LAYOUT_PRESENT_SRC,
        }
    }

    /// The native image layout.
    pub fn layout(self) -> (layout: i32)
        ensures
            layout == self.native_layout(),
    {
        match self {
            ImageTransitionLayout::Undefined => native::IMAGE_LAYOUT_UNDEFINED,
            ImageTransitionLayout::General => native::IMAGE_LAYOUT_GENERAL,
            ImageTransitionLayout::ColorAttachment =>
                native::IMAGE_LAYOUT_COLOR_ATTACHMENT_OPTIMAL,
            ImageTransitionLayout::DepthStencilAttachment =>
                native::IMAGE_LAYOUT_DEPTH_STENCIL_ATTACHMENT_OPTIMAL,
            ImageTransitionLayout::DepthStencilReadOnly =>
                native::IMAGE_LAYOUT_DEPTH_STENCIL_READ_ONLY_OPTIMAL,
            ImageTransitionLayout::ShaderReadOnly =>
                native::IMAGE_LAYOUT_SHADER_READ_ONLY_OPTIMAL,
            ImageTransitionLayout::TransferSrc => native::IMAGE_LAYOUT_TRANSFER_SRC_OPTIMAL,
            ImageTransitionLayout::TransferDst => native::IMAGE_LAYOUT_TRANSFER_DST_OPTIMAL,
            ImageTransitionLayout::Preinitialized => native::IMAGE_LAYOUT_PREINITIALIZED,
            ImageTransitionLayout::Present => native::IMAGE_LAYOUT_PRESENT_SRC,
        }
    }
}

/// Distinct layouts have distinct native codes.
pub proof fn lemma_layout_injective(a: ImageTransitionLayout, b: ImageTransitionLayout)
    requires
        a.native_layout() == b.native_layout(),
    ensures
        a == b,
{
}

} // verus!
