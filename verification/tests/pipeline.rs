use ash::vk;
use vulkanite::device::Device;
use vulkanite::flags::{ColorWrites, CullModeFlags, PipelineLayoutFlags, ShaderStages};
use vulkanite::format::{TextureFormat, VertexFormat};
use vulkanite::native;
use vulkanite::pipeline::{
    BlendComponent, BlendFactor, BlendOperation, BlendState, ColorTargetState, DepthBiasState,
    DepthCompareOperator, DepthStencilState, FrontFace, IndexFormat, MultisampleState,
    PolygonMode, PrimitiveState, PrimitiveTopology, PushConstantRange, VertexAttribute,
    VertexBufferLayout, VertexStepMode,
};
use vulkanite::raster::{
    color_blend_attachment, multisample_state, BindGroupLayout, PipelineLayout,
    PipelineLayoutInfo, RasterPipelineInfo, ShaderStage,
};
use vulkanite::shader::ShaderModule;

fn device() -> Device<()> {
    Device::new()
}

fn primitive(cull_mode: Option<CullModeFlags>) -> PrimitiveState<f32> {
    PrimitiveState {
        topology: PrimitiveTopology::TriangleList,
        strip_index_format: None,
        front_face: FrontFace::CounterClock,
        cull_mode,
        polygon_mode: PolygonMode::Fill,
        unclipped_depth: false,
        conservative: false,
        line_width: 1.0,
    }
}

fn multisample() -> MultisampleState {
    MultisampleState { count: 1, mask: !0, alpha_to_coverage_enabled: false }
}

#[test]
fn uses_constant_reads_both_factors() {
    let plain = BlendComponent::replace();
    assert!(!plain.uses_constant());
    for factor in [BlendFactor::Constant, BlendFactor::OneMinusConstant] {
        let src = BlendComponent {
            src_factor: factor,
            dst_factor: BlendFactor::Zero,
            operation: BlendOperation::Add,
        };
        let dst = BlendComponent {
            src_factor: BlendFactor::One,
            dst_factor: factor,
            operation: BlendOperation::Max,
        };
        assert!(src.uses_constant());
        assert!(dst.uses_constant());
    }
    assert!(!BlendComponent::over().uses_constant());
}

#[test]
fn named_blend_states() {
    assert_eq!(
        BlendComponent::replace(),
        BlendComponent {
            src_factor: BlendFactor::One,
            dst_factor: BlendFactor::Zero,
            operation: BlendOperation::Add,
        }
    );
    assert_eq!(
        BlendComponent::over(),
        BlendComponent {
            src_factor: BlendFactor::One,
            dst_factor: BlendFactor::OneMinusSrcAlpha,
            operation: BlendOperation::Add,
        }
    );
    assert_eq!(BlendState::replace().color, BlendComponent::replace());
    assert_eq!(BlendState::replace().alpha, BlendComponent::replace());
    assert_eq!(BlendState::alpha_blending().color.src_factor, BlendFactor::SrcAlpha);
    assert_eq!(BlendState::alpha_blending().color.dst_factor, BlendFactor::OneMinusSrcAlpha);
    assert_eq!(BlendState::alpha_blending().alpha, BlendComponent::over());
    assert_eq!(BlendState::premultiplied_alpha_blending().color, BlendComponent::over());
    assert_eq!(BlendState::premultiplied_alpha_blending().alpha, BlendComponent::over());
    assert_eq!(BlendOperation::default(), BlendOperation::Add);
}

#[test]
fn target_without_blend_is_written_unblended() {
    let target = ColorTargetState {
        format: TextureFormat::B8G8R8A8Srgb,
        blend: None,
        write_mask: ColorWrites::all(),
    };
    let attachment = color_blend_attachment(&target);
    assert!(!attachment.blend_enable);
    assert_eq!(attachment.color_write_mask, vk::ColorComponentFlags::RGBA.as_raw());
    assert_eq!(attachment.src_color_blend_factor, vk::BlendFactor::ZERO.as_raw());
    assert_eq!(attachment.dst_color_blend_factor, vk::BlendFactor::ZERO.as_raw());
    assert_eq!(attachment.color_blend_op, vk::BlendOp::ADD.as_raw());
    assert_eq!(attachment.src_alpha_blend_factor, vk::BlendFactor::ZERO.as_raw());
    assert_eq!(attachment.dst_alpha_blend_factor, vk::BlendFactor::ZERO.as_raw());
    assert_eq!(attachment.alpha_blend_op, vk::BlendOp::ADD.as_raw());
}

#[test]
fn target_with_blend_uses_exactly_its_state() {
    let state = BlendState {
        color: BlendComponent {
            src_factor: BlendFactor::SrcAlpha,
            dst_factor: BlendFactor::OneMinusSrcAlpha,
            operation: BlendOperation::Subtract,
        },
        alpha: BlendComponent {
            src_factor: BlendFactor::Constant,
            dst_factor: BlendFactor::DstAlpha,
            operation: BlendOperation::Max,
        },
    };
    let target = ColorTargetState {
        format: TextureFormat::R8G8B8A8Unorm,
        blend: Some(state),
        write_mask: ColorWrites::from_bits_truncate(ColorWrites::RED | ColorWrites::ALPHA),
    };
    let attachment = color_blend_attachment(&target);
    assert_eq!(
        attachment,
        native::PipelineColorBlendAttachmentState {
            blend_enable: true,
            src_color_blend_factor: vk::BlendFactor::SRC_ALPHA.as_raw(),
            dst_color_blend_factor: vk::BlendFactor::ONE_MINUS_SRC_ALPHA.as_raw(),
            color_blend_op: vk::BlendOp::SUBTRACT.as_raw(),
            src_alpha_blend_factor: vk::BlendFactor::CONSTANT_COLOR.as_raw(),
            dst_alpha_blend_factor: vk::BlendFactor::DST_ALPHA.as_raw(),
            alpha_blend_op: vk::BlendOp::MAX.as_raw(),
            color_write_mask: (vk::ColorComponentFlags::R | vk::ColorComponentFlags::A).as_raw(),
        }
    );
}

#[test]
fn sample_mask_is_split_into_two_words() {
    let state = multisample_state(&MultisampleState {
        count: 4,
        mask: 0x1234_5678_9abc_def0,
        alpha_to_coverage_enabled: true,
    });
    assert_eq!(state.rasterization_samples, vk::SampleCountFlags::TYPE_4.as_raw());
    assert_eq!(state.sample_mask_low, 0x9abc_def0);
    assert_eq!(state.sample_mask_high, 0x1234_5678);
    assert!(state.alpha_to_coverage_enable);
    let all = multisample_state(&multisample());
    assert_eq!(all.sample_mask_low, u32::MAX);
    assert_eq!(all.sample_mask_high, u32::MAX);
}

#[test]
fn pipeline_layout_flattens_layouts_and_ranges() {
    let first = BindGroupLayout { handle: 11 };
    let second = BindGroupLayout { handle: 12 };
    let layouts = [&first, &second];
    let ranges = [
        PushConstantRange { stages: ShaderStages { bits: ShaderStages::VERTEX }, range: 0..16 },
        PushConstantRange {
            stages: ShaderStages { bits: ShaderStages::VERTEX_FRAGMENT },
            range: 16..64,
        },
    ];
    let info = PipelineLayoutInfo {
        flags: PipelineLayoutFlags::empty(),
        bind_group_layouts: &layouts,
        push_constant_ranges: &ranges,
    };
    assert!(info.is_well_formed());
    let native_info = device().create_pipeline_layout(&info);
    assert_eq!(native_info.flags, 0);
    assert_eq!(native_info.set_layouts, vec![11, 12]);
    assert_eq!(
        native_info.push_constant_ranges,
        vec![
            native::PushConstantRange {
                stage_flags: vk::ShaderStageFlags::VERTEX.as_raw(),
                offset: 0,
                size: 16,
            },
            native::PushConstantRange {
                stage_flags: (vk::ShaderStageFlags::VERTEX | vk::ShaderStageFlags::FRAGMENT)
                    .as_raw(),
                offset: 16,
                size: 48,
            },
        ]
    );
}

#[test]
fn empty_pipeline_layout() {
    let info = PipelineLayoutInfo {
        flags: PipelineLayoutFlags::empty(),
        bind_group_layouts: &[],
        push_constant_ranges: &[],
    };
    assert!(info.is_well_formed());
    let native_info = device().create_pipeline_layout(&info);
    assert!(native_info.set_layouts.is_empty());
    assert!(native_info.push_constant_ranges.is_empty());
}

#[test]
fn misaligned_or_backward_ranges_are_not_well_formed() {
    let stages = ShaderStages { bits: ShaderStages::VERTEX };
    assert!(PushConstantRange { stages, range: 0..0 }.is_well_formed());
    assert!(PushConstantRange { stages, range: 4..8 }.is_well_formed());
    assert!(!PushConstantRange { stages, range: 2..6 }.is_well_formed());
    assert!(!PushConstantRange { stages, range: 0..6 }.is_well_formed());
    assert!(!PushConstantRange { stages, range: 8..4 }.is_well_formed());
    let ranges =
        [PushConstantRange { stages, range: 0..4 }, PushConstantRange { stages, range: 4..7 }];
    let info = PipelineLayoutInfo {
        flags: PipelineLayoutFlags::empty(),
        bind_group_layouts: &[],
        push_constant_ranges: &ranges,
    };
    assert!(!info.is_well_formed());
}

#[test]
fn pipeline_without_cull_mode_leaves_the_native_default() {
    let layout = PipelineLayout { handle: 3 };
    let vertex = ShaderModule { handle: 21 };
    let fragment = ShaderModule { handle: 22 };
    let targets = [ColorTargetState {
        format: TextureFormat::B8G8R8A8Unorm,
        blend: Some(BlendState::replace()),
        write_mask: ColorWrites::all(),
    }];
    let info = RasterPipelineInfo {
        layout: &layout,
        vertex: ShaderStage { module: &vertex, entry_point: "main" },
        vertex_buffers: &[],
        fragment: Some(ShaderStage { module: &fragment, entry_point: "main" }),
        primitive: primitive(None),
        depth_stencil: None,
        multisample: multisample(),
        targets: &targets,
    };
    assert!(info.is_well_formed());
    let native_info = device().create_raster_pipeline(&info);
    assert_eq!(native_info.rasterization.cull_mode, None);
    assert_eq!(native_info.rasterization.polygon_mode, vk::PolygonMode::FILL.as_raw());
    assert_eq!(native_info.rasterization.front_face, vk::FrontFace::COUNTER_CLOCKWISE.as_raw());
    assert_eq!(native_info.rasterization.line_width, 1.0);
    assert_eq!(native_info.rasterization.depth_bias, None);
    assert_eq!(native_info.rasterization.conservative_rasterization_mode, None);
    assert_eq!(native_info.rasterization.depth_clip_enable, None);
    assert_eq!(native_info.layout, 3);
    assert_eq!(
        native_info.stages,
        vec![
            native::PipelineShaderStageCreateInfo {
                stage: vk::ShaderStageFlags::VERTEX.as_raw(),
                module: 21,
                name: "main",
            },
            native::PipelineShaderStageCreateInfo {
                stage: vk::ShaderStageFlags::FRAGMENT.as_raw(),
                module: 22,
                name: "main",
            },
        ]
    );
    assert!(native_info.vertex_bindings.is_empty());
    assert!(native_info.vertex_attributes.is_empty());
    assert_eq!(
        native_info.input_assembly,
        native::PipelineInputAssemblyStateCreateInfo {
            topology: vk::PrimitiveTopology::TRIANGLE_LIST.as_raw(),
            primitive_restart_enable: false,
        }
    );
    assert_eq!(native_info.multisample.rasterization_samples, 1);
    assert_eq!(native_info.multisample.sample_mask_low, u32::MAX);
    assert_eq!(native_info.multisample.sample_mask_high, u32::MAX);
    assert_eq!(native_info.depth_stencil, None);
    assert_eq!(native_info.depth_attachment_format, None);
    assert_eq!(native_info.color_blend_attachments.len(), 1);
    assert!(native_info.color_blend_attachments[0].blend_enable);
    assert_eq!(
        native_info.color_blend_attachments[0].src_color_blend_factor,
        vk::BlendFactor::ONE.as_raw()
    );
    assert_eq!(native_info.color_attachment_formats, vec![vk::Format::B8G8R8A8_UNORM.as_raw()]);
    assert_eq!(
        native_info.dynamic_states,
        vec![
            vk::DynamicState::VIEWPORT.as_raw(),
            vk::DynamicState::SCISSOR.as_raw(),
            vk::DynamicState::BLEND_CONSTANTS.as_raw(),
            vk::DynamicState::STENCIL_REFERENCE.as_raw(),
        ]
    );
    let unit = native::Rect2D {
        offset: native::Offset2D { x: 0, y: 0 },
        extent: native::Extent2D { width: 1, height: 1 },
    };
    assert_eq!(
        native_info.viewport,
        native::Viewport { rect: unit, min_depth: 0, max_depth: 0 }
    );
    assert_eq!(native_info.scissor, unit);
}

#[test]
fn pipeline_with_every_option() {
    let layout = PipelineLayout { handle: 1 };
    let vertex = ShaderModule { handle: 2 };
    let position = [
        VertexAttribute { format: VertexFormat::Float32x3, offset: 0, location: 0 },
        VertexAttribute { format: VertexFormat::Float32x2, offset: 12, location: 1 },
    ];
    let instance = [VertexAttribute { format: VertexFormat::Unorm8x4, offset: 4, location: 5 }];
    let buffers = [
        VertexBufferLayout {
            array_stride: 20,
            step_mode: VertexStepMode::Vertex,
            attributes: &position,
        },
        VertexBufferLayout { array_stride: 8, step_mode: VertexStepMode::Vertex, attributes: &[] },
        VertexBufferLayout {
            array_stride: 0x1_0000_0010,
            step_mode: VertexStepMode::Instance,
            attributes: &instance,
        },
    ];
    let info = RasterPipelineInfo {
        layout: &layout,
        vertex: ShaderStage { module: &vertex, entry_point: "vs_main" },
        vertex_buffers: &buffers,
        fragment: None,
        primitive: PrimitiveState {
            topology: PrimitiveTopology::TriangleStrip,
            strip_index_format: Some(IndexFormat::Uint16),
            front_face: FrontFace::Clock,
            cull_mode: Some(CullModeFlags { bits: CullModeFlags::BACK }),
            polygon_mode: PolygonMode::Line,
            unclipped_depth: true,
            conservative: true,
            line_width: 2.5f32,
        },
        depth_stencil: Some(DepthStencilState {
            format: TextureFormat::D32Sfloat,
            write: true,
            depth_compare: DepthCompareOperator::LessEqual,
            bias: DepthBiasState { constant: 1.0, slope: 2.0, clamp: 3.0 },
            read_mask: 0,
            write_mask: 0,
        }),
        multisample: multisample(),
        targets: &[],
    };
    assert!(info.is_well_formed());
    let native_info = device().create_raster_pipeline(&info);
    assert_eq!(native_info.stages.len(), 1);
    assert_eq!(native_info.stages[0].name, "vs_main");
    assert_eq!(
        native_info.vertex_bindings,
        vec![
            native::VertexInputBindingDescription {
                binding: 0,
                stride: 20,
                input_rate: vk::VertexInputRate::VERTEX.as_raw(),
            },
            native::VertexInputBindingDescription {
                binding: 1,
                stride: 8,
                input_rate: vk::VertexInputRate::VERTEX.as_raw(),
            },
            native::VertexInputBindingDescription {
                binding: 2,
                stride: 0x10,
                input_rate: vk::VertexInputRate::INSTANCE.as_raw(),
            },
        ]
    );
    assert_eq!(
        native_info.vertex_attributes,
        vec![
            native::VertexInputAttributeDescription {
                location: 0,
                binding: 0,
                format: vk::Format::R32G32B32_SFLOAT.as_raw(),
                offset: 0,
            },
            native::VertexInputAttributeDescription {
                location: 1,
                binding: 0,
                format: vk::Format::R32G32_SFLOAT.as_raw(),
                offset: 12,
            },
            native::VertexInputAttributeDescription {
                location: 5,
                binding: 2,
                format: vk::Format::R8G8B8A8_UNORM.as_raw(),
                offset: 4,
            },
        ]
    );
    assert!(native_info.input_assembly.primitive_restart_enable);
    assert_eq!(
        native_info.input_assembly.topology,
        vk::PrimitiveTopology::TRIANGLE_STRIP.as_raw()
    );
    assert_eq!(
        native_info.rasterization,
        native::PipelineRasterizationStateCreateInfo {
            polygon_mode: vk::PolygonMode::LINE.as_raw(),
            front_face: vk::FrontFace::CLOCKWISE.as_raw(),
            line_width: 2.5f32,
            cull_mode: Some(vk::CullModeFlags::BACK.as_raw()),
            depth_bias: Some(native::DepthBias {
                constant_factor: 1.0,
                clamp: 3.0,
                slope_factor: 2.0
            }),
            conservative_rasterization_mode: Some(
                vk::ConservativeRasterizationModeEXT::OVERESTIMATE.as_raw()
            ),
            depth_clip_enable: Some(false),
        }
    );
    assert_eq!(
        native_info.depth_stencil,
        Some(native::PipelineDepthStencilStateCreateInfo {
            depth_test_enable: true,
            depth_write_enable: true,
            depth_compare_op: vk::CompareOp::LESS_OR_EQUAL.as_raw(),
            depth_bounds_test_enable: false,
            stencil_test_enable: false,
        })
    );
    assert_eq!(native_info.depth_attachment_format, Some(vk::Format::D32_SFLOAT.as_raw()));
    assert!(native_info.color_blend_attachments.is_empty());
    assert!(native_info.color_attachment_formats.is_empty());
}

#[test]
fn pipeline_with_combined_cull_flags_is_not_well_formed() {
    let layout = PipelineLayout { handle: 1 };
    let vertex = ShaderModule { handle: 2 };
    let info = RasterPipelineInfo {
        layout: &layout,
        vertex: ShaderStage { module: &vertex, entry_point: "main" },
        vertex_buffers: &[],
        fragment: None,
        primitive: primitive(Some(CullModeFlags { bits: 3 })),
        depth_stencil: None,
        multisample: multisample(),
        targets: &[],
    };
    assert!(!info.is_well_formed());
}
