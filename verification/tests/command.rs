use ash::vk;
use vulkanite::buffer::Buffer;
use vulkanite::command::{
    are_handles, Begin, CommandBuffer, CommandEncoder, ProtocolViolation, Teardown, TeardownStep,
    BUFFER_COUNT,
};
use vulkanite::flags::{AccessFlags, ShaderStages, StageFlags, TextureUsages};
use vulkanite::image::ImageTransitionLayout;
use vulkanite::memory::MemoryBlock;
use vulkanite::native;
use vulkanite::pipeline::{LoadOp, Operations, StoreOp};
use vulkanite::raster::{PipelineLayout, RasterPipeline};
use vulkanite::render::{DepthAttachment, RenderAttachment, RenderInfo};
use vulkanite::texture::{Frame, Texture, TextureView};

fn recording_encoder() -> CommandEncoder {
    let mut encoder = CommandEncoder::new(100);
    encoder.allocated(vec![1, 2, 3], false);
    assert!(matches!(encoder.begin_encoding(), Ok(Begin::Record(_))));
    encoder
}

fn frame() -> Frame {
    Frame {
        texture: Texture { handle: 500, usage: TextureUsages { bits: 0x10 }, block: None },
        view: TextureView { handle: 501 },
    }
}

#[test]
fn new_encoder_is_idle_and_refuses_recording() {
    let encoder = CommandEncoder::new(100);
    assert!(!encoder.is_recording());
    assert_eq!(encoder.draw(0..3, 0..1), Err(ProtocolViolation::NotRecording));
    assert_eq!(encoder.end_rendering(), Err(ProtocolViolation::NotRecording));
    assert_eq!(
        encoder.bind_raster_pipeline(&RasterPipeline { handle: 1 }),
        Err(ProtocolViolation::NotRecording)
    );
    let buffer = Buffer { handle: 1, block: MemoryBlock { memory: 2, offset: 3, size: 4 } };
    assert_eq!(encoder.bind_vertex_buffer(0, &buffer), Err(ProtocolViolation::NotRecording));
    assert_eq!(
        encoder.push_constants(&PipelineLayout { handle: 1 }, ShaderStages::empty(), 0, &[]),
        Err(ProtocolViolation::NotRecording)
    );
    assert_eq!(
        encoder.frame_transition(
            ImageTransitionLayout::Undefined,
            ImageTransitionLayout::Present,
            None,
            None,
            None,
            None,
            &frame()
        ),
        Err(ProtocolViolation::NotRecording)
    );
    let info: RenderInfo<[f32; 4], f32> = RenderInfo {
        color_attachments: &[],
        depth_attachment: None,
        stencil_attachment: None,
        offset: (0, 0),
        area: (1, 1),
    };
    assert_eq!(encoder.begin_rendering(info), Err(ProtocolViolation::NotRecording));
}

#[test]
fn empty_pool_asks_for_a_batch_of_primary_buffers() {
    let mut encoder = CommandEncoder::new(100);
    assert_eq!(BUFFER_COUNT, 8);
    assert_eq!(
        encoder.begin_encoding(),
        Ok(Begin::Allocate(native::CommandBufferAllocateInfo {
            command_pool: 100,
            level: vk::CommandBufferLevel::PRIMARY.as_raw(),
            command_buffer_count: 8,
        }))
    );
    assert!(!encoder.is_recording());
    assert!(encoder.primary.is_empty());
}

#[test]
fn begin_takes_the_last_pooled_buffer() {
    let mut encoder = CommandEncoder::new(100);
    encoder.allocated(vec![1, 2, 3], false);
    assert_eq!(
        encoder.begin_encoding(),
        Ok(Begin::Record(native::BeginCommandBuffer {
            command_buffer: 3,
            flags: vk::CommandBufferUsageFlags::ONE_TIME_SUBMIT.as_raw(),
        }))
    );
    assert!(encoder.is_recording());
    assert_eq!(encoder.active, 3);
    assert_eq!(encoder.primary, vec![1, 2]);
}

#[test]
fn encoder_cycle_alternates() {
    let mut encoder = CommandEncoder::new(100);
    encoder.allocated(vec![1, 2], false);
    assert_eq!(encoder.finish(), Err(ProtocolViolation::NotRecording));
    assert!(matches!(encoder.begin_encoding(), Ok(Begin::Record(_))));
    assert!(encoder.draw(0..3, 0..1).is_ok());
    assert_eq!(encoder.begin_encoding(), Err(ProtocolViolation::AlreadyRecording));
    assert_eq!(encoder.active, 2);
    assert_eq!(encoder.primary, vec![1]);
    assert_eq!(encoder.finish(), Ok(CommandBuffer { handle: 2 }));
    assert!(!encoder.is_recording());
    assert_eq!(encoder.draw(0..3, 0..1), Err(ProtocolViolation::NotRecording));
    assert_eq!(encoder.finish(), Err(ProtocolViolation::NotRecording));
    assert_eq!(encoder.end_encoding(), Err(ProtocolViolation::NotRecording));
    assert!(matches!(encoder.begin_encoding(), Ok(Begin::Record(_))));
    assert_eq!(encoder.active, 1);
    assert!(encoder.draw(0..3, 0..1).is_ok());
    assert_eq!(encoder.end_encoding(), Ok(CommandBuffer { handle: 1 }));
    assert!(matches!(encoder.begin_encoding(), Ok(Begin::Allocate(_))));
}

#[test]
fn failed_begin_returns_the_buffer_to_the_pool() {
    let mut encoder = CommandEncoder::new(100);
    encoder.allocated(vec![1, 2], false);
    assert!(matches!(encoder.begin_encoding(), Ok(Begin::Record(_))));
    assert_eq!(encoder.begin_failed(), Ok(()));
    assert!(!encoder.is_recording());
    assert_eq!(encoder.primary, vec![1, 2]);
    assert_eq!(encoder.begin_failed(), Err(ProtocolViolation::NotRecording));
    assert_eq!(encoder.primary, vec![1, 2]);
}

#[test]
fn allocated_buffers_join_the_pool_of_their_level() {
    let mut encoder = CommandEncoder::new(100);
    assert_eq!(
        encoder.allocate(4, true),
        native::CommandBufferAllocateInfo {
            command_pool: 100,
            level: vk::CommandBufferLevel::SECONDARY.as_raw(),
            command_buffer_count: 4,
        }
    );
    encoder.allocated(vec![1, 2], false);
    encoder.allocated(vec![7, 8], true);
    encoder.allocated(vec![3], false);
    assert_eq!(encoder.primary, vec![1, 2, 3]);
    assert_eq!(encoder.secondary, vec![7, 8]);
    assert!(encoder.is_well_formed());
    encoder.primary.push(0);
    assert!(!encoder.is_well_formed());
    assert!(are_handles(&vec![1, 2]));
    assert!(!are_handles(&vec![1, 0, 2]));
    assert!(are_handles(&vec![]));
}

#[test]
fn draw_takes_counts_from_lengths_and_firsts_from_lower_bounds() {
    let encoder = recording_encoder();
    assert_eq!(
        encoder.draw(2..10, 5..7),
        Ok(native::Draw {
            command_buffer: 3,
            vertex_count: 8,
            instance_count: 2,
            first_vertex: 2,
            first_instance: 5,
        })
    );
    assert_eq!(
        encoder.draw(0..3, 0..1),
        Ok(native::Draw {
            command_buffer: 3,
            vertex_count: 3,
            instance_count: 1,
            first_vertex: 0,
            first_instance: 0,
        })
    );
    assert_eq!(
        encoder.draw(4..4, 9..2),
        Ok(native::Draw {
            command_buffer: 3,
            vertex_count: 0,
            instance_count: 0,
            first_vertex: 4,
            first_instance: 9,
        })
    );
    assert_eq!(
        encoder.draw(0..u32::MAX, 1..u32::MAX),
        Ok(native::Draw {
            command_buffer: 3,
            vertex_count: u32::MAX,
            instance_count: u32::MAX - 1,
            first_vertex: 0,
            first_instance: 1,
        })
    );
}

#[test]
fn frame_transition_is_one_barrier_on_the_color_image() {
    let encoder = recording_encoder();
    let barrier = encoder
        .frame_transition(
            ImageTransitionLayout::Undefined,
            ImageTransitionLayout::ColorAttachment,
            Some(StageFlags { bits: StageFlags::TOP_OF_PIPE }),
            None,
            Some(StageFlags { bits: StageFlags::COLOR_ATTACHMENT_OUTPUT }),
            Some(AccessFlags { bits: AccessFlags::COLOR_ATTACHMENT_WRITE }),
            &frame(),
        )
        .unwrap();
    assert_eq!(
        barrier,
        native::PipelineBarrier {
            command_buffer: 3,
            src_stage_mask: vk::PipelineStageFlags::TOP_OF_PIPE.as_raw(),
            dst_stage_mask: vk::PipelineStageFlags::COLOR_ATTACHMENT_OUTPUT.as_raw(),
            dependency_flags: 0,
            image_memory_barrier: native::ImageMemoryBarrier {
                src_access_mask: 0,
                dst_access_mask: vk::AccessFlags::COLOR_ATTACHMENT_WRITE.as_raw(),
                old_layout: vk::ImageLayout::UNDEFINED.as_raw(),
                new_layout: vk::ImageLayout::COLOR_ATTACHMENT_OPTIMAL.as_raw(),
                image: 500,
                subresource_range: native::ImageSubresourceRange {
                    aspect_mask: vk::ImageAspectFlags::COLOR.as_raw(),
                    base_mip_level: 0,
                    level_count: 1,
                    base_array_layer: 0,
                    layer_count: 1,
                },
            },
        }
    );
}

#[test]
fn access_mask_keeps_its_low_word() {
    let encoder = recording_encoder();
    let barrier = encoder
        .frame_transition(
            ImageTransitionLayout::ColorAttachment,
            ImageTransitionLayout::Present,
            None,
            Some(AccessFlags { bits: 0x1_0000_0100 }),
            None,
            None,
            &frame(),
        )
        .unwrap();
    assert_eq!(barrier.src_stage_mask, 0);
    assert_eq!(barrier.dst_stage_mask, 0);
    assert_eq!(barrier.image_memory_barrier.src_access_mask, 0x100);
    assert_eq!(barrier.image_memory_barrier.dst_access_mask, 0);
    assert_eq!(barrier.image_memory_barrier.new_layout, vk::ImageLayout::PRESENT_SRC_KHR.as_raw());
}

#[test]
fn begin_rendering_covers_exactly_the_render_area() {
    let encoder = recording_encoder();
    let color = TextureView { handle: 41 };
    let other = TextureView { handle: 42 };
    let depth = TextureView { handle: 43 };
    let attachments = [
        RenderAttachment {
            view: &color,
            ops: Operations { load: LoadOp::Clear([0.0f32, 1.0, 0.0, 1.0]), store: StoreOp::Store },
        },
        RenderAttachment {
            view: &other,
            ops: Operations { load: LoadOp::Load, store: StoreOp::DontCare },
        },
    ];
    let info = RenderInfo {
        color_attachments: &attachments,
        depth_attachment: Some(DepthAttachment {
            view: &depth,
            ops: Operations { load: LoadOp::Clear(1.0f32), store: StoreOp::Store },
        }),
        stencil_attachment: None,
        offset: (10, -20),
        area: (1080, 720),
    };
    let (scissor, viewport, pass) = encoder.begin_rendering(info).unwrap();
    let area = native::Rect2D {
        offset: native::Offset2D { x: 10, y: -20 },
        extent: native::Extent2D { width: 1080, height: 720 },
    };
    assert_eq!(
        scissor,
        native::SetScissor { command_buffer: 3, first_scissor: 0, scissor: area }
    );
    assert_eq!(
        viewport,
        native::SetViewport {
            command_buffer: 3,
            first_viewport: 0,
            viewport: native::Viewport { rect: area, min_depth: 0, max_depth: 1 },
        }
    );
    assert_eq!(pass.command_buffer, 3);
    assert_eq!(pass.rendering.render_area, area);
    assert_eq!(pass.rendering.layer_count, 1);
    assert_eq!(pass.rendering.view_mask, 0);
    assert_eq!(pass.rendering.color_attachments.len(), 2);
    assert_eq!(pass.rendering.color_attachments[0].image_view, 41);
    assert_eq!(pass.rendering.color_attachments[0].clear_value, Some([0.0f32, 1.0, 0.0, 1.0]));
    assert_eq!(pass.rendering.color_attachments[1].image_view, 42);
    assert_eq!(
        pass.rendering.color_attachments[1].load_op,
        vk::AttachmentLoadOp::LOAD.as_raw()
    );
    let depth = pass.rendering.depth_attachment.unwrap();
    assert_eq!(depth.image_view, 43);
    assert_eq!(
        depth.clear_value,
        Some(native::ClearDepthStencilValue { depth: 1.0f32, stencil: 0 })
    );
}

#[test]
fn simple_recording_calls_name_the_active_buffer() {
    let encoder = recording_encoder();
    assert_eq!(encoder.end_rendering(), Ok(native::EndRendering { command_buffer: 3 }));
    assert_eq!(
        encoder.bind_raster_pipeline(&RasterPipeline { handle: 9 }),
        Ok(native::BindPipeline {
            command_buffer: 3,
            pipeline_bind_point: vk::PipelineBindPoint::GRAPHICS.as_raw(),
            pipeline: 9,
        })
    );
    let buffer = Buffer { handle: 70, block: MemoryBlock { memory: 71, offset: 256, size: 64 } };
    assert_eq!(
        encoder.bind_vertex_buffer(2, &buffer),
        Ok(native::BindVertexBuffer { command_buffer: 3, first_binding: 2, buffer: 70, offset: 256 })
    );
    let data = [1u8, 2, 3, 4];
    assert_eq!(
        encoder.push_constants(
            &PipelineLayout { handle: 8 },
            ShaderStages { bits: ShaderStages::VERTEX_FRAGMENT },
            16,
            &data
        ),
        Ok(native::PushConstants {
            command_buffer: 3,
            layout: 8,
            stage_flags: (vk::ShaderStageFlags::VERTEX | vk::ShaderStageFlags::FRAGMENT).as_raw(),
            offset: 16,
            values: &data,
        })
    );
}

#[test]
fn teardown_releases_what_the_encoder_holds() {
    let mut encoder = CommandEncoder::new(100);
    encoder.allocated(vec![1, 2, 3], false);
    encoder.allocated(vec![9], true);
    assert!(matches!(encoder.begin_encoding(), Ok(Begin::Record(_))));
    assert_eq!(
        encoder.teardown(),
        Teardown {
            steps: vec![
                TeardownStep::WaitIdle,
                TeardownStep::FreeActive { buffer: 3 },
                TeardownStep::FreePrimary,
                TeardownStep::FreeSecondary,
                TeardownStep::DestroyPool,
            ],
            command_pool: 100,
            primary: vec![1, 2],
            secondary: vec![9],
        }
    );
    assert_eq!(
        CommandEncoder::new(5).teardown(),
        Teardown {
            steps: vec![TeardownStep::WaitIdle, TeardownStep::DestroyPool],
            command_pool: 5,
            primary: vec![],
            secondary: vec![],
        }
    );
    let mut idle = CommandEncoder::new(6);
    idle.allocated(vec![4], true);
    assert_eq!(
        idle.teardown().steps,
        vec![TeardownStep::WaitIdle, TeardownStep::FreeSecondary, TeardownStep::DestroyPool]
    );
}
