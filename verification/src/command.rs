//! Command encoders: the recording session and the pool of command buffers
//! of one queue.
//!
//! An encoder is idle or recording. `begin_encoding` takes a buffer from the
//! pool and makes it the active one; every recording call names the active
//! buffer in the native command it returns; `finish` hands the active buffer
//! out and leaves the encoder idle. A recording call on an idle encoder is
//! refused, and so is a second `begin_encoding` before `finish`.

use vstd::prelude::*;
use std::ops::Range;
use crate::buffer::Buffer;
use crate::conv::{
    map_depth_attachment_info, map_render_attachment_info, map_shader_stage,
    native_depth_attachment, native_render_attachment, native_shader_stages,
};
use crate::flags::{AccessFlags, ShaderStages, StageFlags};
use crate::image::ImageTransitionLayout;
use crate::native;
use crate::raster::{PipelineLayout, RasterPipeline};
use crate::render::RenderInfo;
use crate::texture::Frame;

verus! {

/// How many command buffers the pool of an encoder grows by.
pub const BUFFER_COUNT: u32 = 8;

/// A finished recording, ready for submission.
#[derive(Debug, PartialEq, Eq)]
pub struct CommandBuffer {
    pub handle: u64,
}

/// The two states of an encoder.
#[derive(Clone, Copy, Debug, PartialEq, Eq, Structural)]
pub enum EncoderState {
    /// No buffer is active.
    Idle,
    /// One buffer is active and takes commands.
    Recording,
}

/// A call that the state of the encoder does not allow.
#[derive(Clone, Copy, Debug, PartialEq, Eq, Structural)]
pub enum ProtocolViolation {
    /// A recording call or `finish` without an active encoding.
    NotRecording,
    /// `begin_encoding` while an encoding is active.
    AlreadyRecording,
}

impl EncoderState {
    /// Whether an encoder in this state takes recording calls.
    pub open spec fn records(self) -> bool {
        self == EncoderState::Recording
    }

    /// The state after `begin_encoding` has taken a buffer from the pool, or
    /// why the encoder refuses to begin.
    pub open spec fn begin(self) -> Result<EncoderState, ProtocolViolation> {
        match self {
            EncoderState::Idle => Ok(EncoderState::Recording),
            EncoderState::Recording => Err(ProtocolViolation::AlreadyRecording),
        }
    }

    /// The state after `finish`, or why the encoder refuses to finish.
    pub open spec fn finish(self) -> Result<EncoderState, ProtocolViolation> {
        match self {
            EncoderState::Recording => Ok(EncoderState::Idle),
            EncoderState::Idle => Err(ProtocolViolation::NotRecording),
        }
    }
}

/// Idle and recording alternate strictly. An idle encoder takes no recording
/// call and cannot finish; all it can do is begin, and then it records. A
/// recording encoder cannot begin again; it takes recording calls until it
/// finishes, and then it is idle as it was at first.
pub proof fn lemma_encoder_cycle(state: EncoderState)
    ensures
        !EncoderState::Idle.records(),
        EncoderState::Idle.finish() is Err,
        EncoderState::Idle.begin() == Ok::<EncoderState, ProtocolViolation>(
            EncoderState::Recording,
        ),
        EncoderState::Recording.records(),
        EncoderState::Recording.begin() is Err,
        EncoderState::Recording.finish() == Ok::<EncoderState, ProtocolViolation>(
            EncoderState::Idle,
        ),
        state.begin() matches Ok(next) ==> next.records() && next.begin() is Err && next.finish()
            == Ok::<EncoderState, ProtocolViolation>(state),
        state.finish() matches Ok(next) ==> !next.records() && next.finish() is Err && next.begin()
            == Ok::<EncoderState, ProtocolViolation>(state),
{
}

/// What `begin_encoding` asks of the native API.
#[derive(Clone, Copy, Debug, PartialEq, Eq, Structural)]
pub enum Begin {
    /// The pool is empty: allocate a batch of buffers, hand them to
    /// `allocated`, and begin again.
    Allocate(native::CommandBufferAllocateInfo),
    /// Put the buffer, which is now the active one, into the recording
    /// state.
    Record(native::BeginCommandBuffer),
}

/// One step of tearing an encoder down.
#[derive(Clone, Copy, Debug, PartialEq, Eq, Structural)]
pub enum TeardownStep {
    /// Wait until the device is idle.
    WaitIdle,
    /// Free the buffer that was recording.
    FreeActive { buffer: u64 },
    /// Free the pooled primary buffers.
    FreePrimary,
    /// Free the pooled secondary buffers.
    FreeSecondary,
    /// Destroy the command pool.
    DestroyPool,
}

/// What tearing an encoder down releases: the steps to take, in their
/// order, the command pool, and the buffers that were pooled.
#[derive(Debug, PartialEq, Eq)]
pub struct Teardown {
    pub steps: Vec<TeardownStep>,
    pub command_pool: u64,
    pub primary: Vec<u64>,
    pub secondary: Vec<u64>,
}

/// The recording session and the buffer pool of one queue.
#[derive(Debug)]
pub struct CommandEncoder {
    /// The native command pool.
    pub handle: u64,
    /// The buffer that is recording, or the null handle.
    pub active: u64,
    /// The primary buffers that are free to record.
    pub primary: Vec<u64>,
    /// The secondary buffers that are free to record.
    pub secondary: Vec<u64>,
}

/// Whether every element is a handle of an object.
pub open spec fn all_handles(buffers: Seq<u64>) -> bool {
    forall|i: int| 0 <= i < buffers.len() ==> buffers[i] != native::NULL_HANDLE
}

/// Whether every element is a handle of an object.
pub fn are_handles(buffers: &Vec<u64>) -> (ok: bool)
    ensures
        ok == all_handles(buffers@),
{
    let mut i: usize = 0;
    while i < buffers.len()
        invariant
            i <= buffers@.len(),
            forall|k: int| 0 <= k < i ==> buffers@[k] != native::NULL_HANDLE,
        decreases buffers@.len() - i,
    {
        if buffers[i] == native::NULL_HANDLE {
            return false;
        }
        i += 1;
    }
    true
}

/// The length of a range: the distance from its start to its end, and zero
/// where the end does not lie after the start.
pub open spec fn range_len(range: Range<u32>) -> u32 {
    if range.start < range.end {
        (range.end - range.start) as u32
    } else {
        0
    }
}

/// The low 32 bits of an access mask: the native API has no more.
pub open spec fn native_access(access: Option<AccessFlags>) -> u32 {
    match access {
        Some(mask) => (mask.bits % 0x1_0000_0000) as u32,
        None => 0,
    }
}

pub open spec fn native_stage(stage: Option<StageFlags>) -> u32 {
    match stage {
        Some(mask) => mask.bits,
        None => 0,
    }
}

/// The barrier that moves the whole color image of a frame, which has one
/// mip level and one layer, from one layout to another.
pub open spec fn frame_barrier(
    command_buffer: u64,
    old_layout: ImageTransitionLayout,
    new_layout: ImageTransitionLayout,
    src_stage: Option<StageFlags>,
    src_access: Option<AccessFlags>,
    dst_stage: Option<StageFlags>,
    dst_access: Option<AccessFlags>,
    image: u64,
) -> native::PipelineBarrier {
    native::PipelineBarrier {
        command_buffer,
        src_stage_mask: native_stage(src_stage),
        dst_stage_mask: native_stage(dst_stage),
        dependency_flags: 0,
        image_memory_barrier: native::ImageMemoryBarrier {
            src_access_mask: native_access(src_access),
            dst_access_mask: native_access(dst_access),
            old_layout: old_layout.native_layout(),
            new_layout: new_layout.native_layout(),
            image,
            subresource_range: native::ImageSubresourceRange {
                aspect_mask: native::IMAGE_ASPECT_COLOR,
                base_mip_level: 0,
                level_count: 1,
                base_array_layer: 0,
                layer_count: 1,
            },
        },
    }
}

/// The render area of a render pass: the rectangle of the given size at the
/// given offset.
pub open spec fn render_area<C, D>(info: RenderInfo<'_, C, D>) -> native::Rect2D {
    native::Rect2D {
        offset: native::Offset2D { x: info.offset.0, y: info.offset.1 },
        extent: native::Extent2D { width: info.area.0, height: info.area.1 },
    }
}

fn access_mask(access: Option<AccessFlags>) -> (mask: u32)
    ensures
        mask == native_access(access),
{
    match access {
        Some(flags) => (flags.bits % 0x1_0000_0000) as u32,
        None => 0,
    }
}

fn stage_mask(stage: Option<StageFlags>) -> (mask: u32)
    ensures
        mask == native_stage(stage),
{
    match stage {
        Some(flags) => flags.bits,
        None => 0,
    }
}

impl CommandEncoder {
    /// The state of the encoder.
    pub open spec fn state(&self) -> EncoderState {
        if self.active == native::NULL_HANDLE {
            EncoderState::Idle
        } else {
            EncoderState::Recording
        }
    }

    /// The pooled buffers are handles of objects.
    pub open spec fn well_formed(&self) -> bool {
        all_handles(self.primary@) && all_handles(self.secondary@)
    }

    /// Whether the pooled buffers are handles of objects.
    pub fn is_well_formed(&self) -> (ok: bool)
        ensures
            ok == self.well_formed(),
    {
        are_handles(&self.primary) && are_handles(&self.secondary)
    }

    /// An idle encoder with an empty pool of buffers.
    pub fn new(command_pool: u64) -> (encoder: Self)
        ensures
            encoder.handle == command_pool,
            encoder.state() == EncoderState::Idle,
            encoder.primary@.len() == 0,
            encoder.secondary@.len() == 0,
            encoder.well_formed(),
    {
        CommandEncoder {
            handle: command_pool,
            active: native::NULL_HANDLE,
            primary: Vec::new(),
            secondary: Vec::new(),
        }
    }

    /// Whether an encoding is active.
    pub fn is_recording(&self) -> (recording: bool)
        ensures
            recording == (self.state() == EncoderState::Recording),
    {
        self.active != native::NULL_HANDLE
    }

    /// What `count` buffers of the pool are allocated from.
    pub fn allocate(&self, count: u32, secondary: bool) -> (info: native::CommandBufferAllocateInfo)
        ensures
            info.command_pool == self.handle,
            info.command_buffer_count == count,
            info.level == if secondary {
                native::COMMAND_BUFFER_LEVEL_SECONDARY
            } else {
                native::COMMAND_BUFFER_LEVEL_PRIMARY
            },
    {
        native::CommandBufferAllocateInfo {
            command_pool: self.handle,
            level: if secondary {
                native::COMMAND_BUFFER_LEVEL_SECONDARY
            } else {
                native::COMMAND_BUFFER_LEVEL_PRIMARY
            },
            command_buffer_count: count,
        }
    }

    /// Puts freshly allocated buffers into the pool of their level, behind
    /// the buffers that are there.
    pub fn allocated(&mut self, buffers: Vec<u64>, secondary: bool)
        requires
            old(self).well_formed(),
            all_handles(buffers@),
        ensures
            final(self).well_formed(),
            final(self).handle == old(self).handle,
            final(self).active == old(self).active,
            final(self).primary@ == if secondary {
                old(self).primary@
            } else {
                old(self).primary@ + buffers@
            },
            final(self).secondary@ == if secondary {
                old(self).secondary@ + buffers@
            } else {
                old(self).secondary@
            },
    {
        let mut buffers = buffers;
        if secondary {
            self.secondary.append(&mut buffers);
        } else {
            self.primary.append(&mut buffers);
        }
    }

    /// Begins an encoding. An encoder that is recording refuses. An idle
    /// encoder with an empty pool asks for a batch of primary buffers and
    /// stays as it is. Else the buffer that was pooled last leaves the pool
    /// and becomes the active one, to be put into the recording state for
    /// one submission.
    pub fn begin_encoding(&mut self) -> (begin: Result<Begin, ProtocolViolation>)
        requires
            old(self).well_formed(),
        ensures
            final(self).well_formed(),
            final(self).handle == old(self).handle,
            final(self).secondary@ == old(self).secondary@,
            match begin {
                Err(violation) => {
                    &&& old(self).state().begin() == Err::<EncoderState, ProtocolViolation>(
                        violation,
                    )
                    &&& final(self).active == old(self).active
                    &&& final(self).primary@ == old(self).primary@
                },
                Ok(Begin::Allocate(info)) => {
                    &&& old(self).state() == EncoderState::Idle
                    &&& old(self).primary@.len() == 0
                    &&& info == (native::CommandBufferAllocateInfo {
                        command_pool: old(self).handle,
                        level: native::COMMAND_BUFFER_LEVEL_PRIMARY,
                        command_buffer_count: BUFFER_COUNT,
                    })
                    &&& final(self).active == old(self).active
                    &&& final(self).primary@ == old(self).primary@
                },
                Ok(Begin::Record(record)) => {
                    &&& old(self).state() == EncoderState::Idle
                    &&& old(self).primary@.len() > 0
                    &&& record.command_buffer == old(self).primary@.last()
                    &&& record.flags == native::COMMAND_BUFFER_USAGE_ONE_TIME_SUBMIT
                    &&& final(self).active == record.command_buffer
                    &&& old(self).state().begin() == Ok::<EncoderState, ProtocolViolation>(
                        final(self).state(),
                    )
                    &&& final(self).primary@ == old(self).primary@.drop_last()
                },
            },
    {
        if self.active != native::NULL_HANDLE {
            return Err(ProtocolViolation::AlreadyRecording);
        }
        match self.primary.pop() {
            None => Ok(Begin::Allocate(self.allocate(BUFFER_COUNT, false))),
            Some(buffer) => {
                self.active = buffer;
                Ok(
                    Begin::Record(
                        native::BeginCommandBuffer {
                            command_buffer: buffer,
                            flags: native::COMMAND_BUFFER_USAGE_ONE_TIME_SUBMIT,
                        },
                    ),
                )
            },
        }
    }

    /// Takes back an encoding whose buffer the native API did not put into
    /// the recording state: the active buffer goes back to the pool and the
    /// encoder is idle.
    pub fn begin_failed(&mut self) -> (outcome: Result<(), ProtocolViolation>)
        requires
            old(self).well_formed(),
        ensures
            final(self).well_formed(),
            final(self).handle == old(self).handle,
            final(self).secondary@ == old(self).secondary@,
            final(self).state() == EncoderState::Idle,
            match outcome {
                Ok(_) => old(self).state() == EncoderState::Recording && final(self).primary@
                    == old(self).primary@.push(old(self).active),
                Err(violation) => old(self).state() == EncoderState::Idle && violation
                    == ProtocolViolation::NotRecording && final(self).primary@ == old(
                    self,
                ).primary@,
            },
    {
        if self.active == native::NULL_HANDLE {
            return Err(ProtocolViolation::NotRecording);
        }
        self.primary.push(self.active);
        self.active = native::NULL_HANDLE;
        Ok(())
    }

    /// Ends the encoding: the active buffer is handed out, to be taken out
    /// of the recording state, and the encoder is idle. An idle encoder
    /// refuses.
    pub fn end_encoding(&mut self) -> (buffer: Result<CommandBuffer, ProtocolViolation>)
        ensures
            final(self).handle == old(self).handle,
            final(self).primary == old(self).primary,
            final(self).secondary == old(self).secondary,
            final(self).state() == EncoderState::Idle,
            match buffer {
                Ok(finished) => old(self).state().finish() == Ok::<
                    EncoderState,
                    ProtocolViolation,
                >(final(self).state()) && finished.handle == old(self).active,
                Err(violation) => old(self).state().finish() == Err::<
                    EncoderState,
                    ProtocolViolation,
                >(violation),
            },
    {
        if self.active == native::NULL_HANDLE {
            return Err(ProtocolViolation::NotRecording);
        }
        let active: u64 = self.active;
        self.active = native::NULL_HANDLE;
        Ok(CommandBuffer { handle: active })
    }

    /// Ends the encoding and hands the finished command buffer out.
    pub fn finish(&mut self) -> (buffer: Result<CommandBuffer, ProtocolViolation>)
        ensures
            final(self).handle == old(self).handle,
            final(self).primary == old(self).primary,
            final(self).secondary == old(self).secondary,
            final(self).state() == EncoderState::Idle,
            match buffer {
                Ok(finished) => old(self).state().finish() == Ok::<
                    EncoderState,
                    ProtocolViolation,
                >(final(self).state()) && finished.handle == old(self).active,
                Err(violation) => old(self).state().finish() == Err::<
                    EncoderState,
                    ProtocolViolation,
                >(violation),
            },
    {
        self.end_encoding()
    }

    /// Records the transition of a frame's image from one layout to another,
    /// as one pipeline barrier. A stage or access mask that is not given is
    /// empty.
    pub fn frame_transition(
        &self,
        old: ImageTransitionLayout,
        new: ImageTransitionLayout,
        src_stage: Option<StageFlags>,
        src_access: Option<AccessFlags>,
        dst_stage: Option<StageFlags>,
        dst_access: Option<AccessFlags>,
        frame: &Frame,
    ) -> (barrier: Result<native::PipelineBarrier, ProtocolViolation>)
        ensures
            barrier == if self.state().records() {
                Ok::<native::PipelineBarrier, ProtocolViolation>(
                    frame_barrier(
                        self.active,
                        old,
                        new,
                        src_stage,
                        src_access,
                        dst_stage,
                        dst_access,
                        frame.texture.handle,
                    ),
                )
            } else {
                Err::<native::PipelineBarrier, ProtocolViolation>(ProtocolViolation::NotRecording)
            },
    {
        if self.active == native::NULL_HANDLE {
            return Err(ProtocolViolation::NotRecording);
        }
        Ok(
            native::PipelineBarrier {
                command_buffer: self.active,
                src_stage_mask: stage_mask(src_stage),
                dst_stage_mask: stage_mask(dst_stage),
                dependency_flags: 0,
                image_memory_barrier: native::ImageMemoryBarrier {
                    src_access_mask: access_mask(src_access),
                    dst_access_mask: access_mask(dst_access),
                    old_layout: old.layout(),
                    new_layout: new.layout(),
                    image: frame.texture.handle,
                    subresource_range: native::ImageSubresourceRange {
                        aspect_mask: native::IMAGE_ASPECT_COLOR,
                        base_mip_level: 0,
                        level_count: 1,
                        base_array_layer: 0,
                        layer_count: 1,
                    },
                },
            },
        )
    }

    /// Records the beginning of a render pass, in three commands: the
    /// scissor is set, then the viewport, then the pass begins. Scissor and
    /// viewport cover exactly the render area, and the viewport spans the
    /// depths from zero to one. The pass has one layer and no view mask, the
    /// color attachments of the descriptor in their order, and its depth
    /// attachment if it has one.
    pub fn begin_rendering<C: Copy, D: Copy>(&self, info: RenderInfo<'_, C, D>) -> (begin: Result<
        (native::SetScissor, native::SetViewport, native::BeginRendering<C, D>),
        ProtocolViolation,
    >)
        ensures
            match begin {
                Ok((scissor, viewport, pass)) => {
                    &&& self.state().records()
                    &&& scissor == (native::SetScissor {
                        command_buffer: self.active,
                        first_scissor: 0,
                        scissor: render_area(info),
                    })
                    &&& viewport == (native::SetViewport {
                        command_buffer: self.active,
                        first_viewport: 0,
                        viewport: native::Viewport {
                            rect: render_area(info),
                            min_depth: 0,
                            max_depth: 1,
                        },
                    })
                    &&& pass.command_buffer == self.active
                    &&& pass.rendering.render_area == render_area(info)
                    &&& pass.rendering.layer_count == 1
                    &&& pass.rendering.view_mask == 0
                    &&& pass.rendering.color_attachments@ == Seq::new(
                        info.color_attachments@.len(),
                        |i: int| native_render_attachment(info.color_attachments@[i]),
                    )
                    &&& pass.rendering.depth_attachment == match info.depth_attachment {
                        Some(depth) => Some(native_depth_attachment(depth)),
                        None => None,
                    }
                },
                Err(violation) => !self.state().records() && violation
                    == ProtocolViolation::NotRecording,
            },
    {
        if self.active == native::NULL_HANDLE {
            return Err(ProtocolViolation::NotRecording);
        }
        let mut attachments: Vec<native::RenderingAttachmentInfo<C>> = Vec::new();
        let mut i: usize = 0;
        while i < info.color_attachments.len()
            invariant
                i <= info.color_attachments@.len(),
                attachments@ == Seq::new(
                    i as nat,
                    |k: int| native_render_attachment(info.color_attachments@[k]),
                ),
            decreases info.color_attachments@.len() - i,
        {
            attachments.push(map_render_attachment_info(&info.color_attachments[i]));
            i += 1;
            assert(attachments@ =~= Seq::new(
                i as nat,
                |k: int| native_render_attachment(info.color_attachments@[k]),
            ));
        }
        let depth = match &info.depth_attachment {
            Some(depth) => Some(map_depth_attachment_info(depth)),
            None => None,
        };
        let area = native::Rect2D {
            offset: native::Offset2D { x: info.offset.0, y: info.offset.1 },
            extent: native::Extent2D { width: info.area.0, height: info.area.1 },
        };
        Ok(
            (
                native::SetScissor { command_buffer: self.active, first_scissor: 0, scissor: area },
                native::SetViewport {
                    command_buffer: self.active,
                    first_viewport: 0,
                    viewport: native::Viewport { rect: area, min_depth: 0, max_depth: 1 },
                },
                native::BeginRendering {
                    command_buffer: self.active,
                    rendering: native::RenderingInfo {
                        render_area: area,
                        layer_count: 1,
                        view_mask: 0,
                        color_attachments: attachments,
                        depth_attachment: depth,
                    },
                },
            ),
        )
    }

    /// Records the end of the render pass.
    pub fn end_rendering(&self) -> (end: Result<native::EndRendering, ProtocolViolation>)
        ensures
            end == if self.state().records() {
                Ok::<native::EndRendering, ProtocolViolation>(
                    native::EndRendering { command_buffer: self.active },
                )
            } else {
                Err::<native::EndRendering, ProtocolViolation>(ProtocolViolation::NotRecording)
            },
    {
        if self.active == native::NULL_HANDLE {
            return Err(ProtocolViolation::NotRecording);
        }
        Ok(native::EndRendering { command_buffer: self.active })
    }

    /// Records the binding of a raster pipeline, at the graphics bind point.
    pub fn bind_raster_pipeline(&self, pipeline: &RasterPipeline) -> (bind: Result<
        native::BindPipeline,
        ProtocolViolation,
    >)
        ensures
            bind == if self.state().records() {
                Ok::<native::BindPipeline, ProtocolViolation>(
                    native::BindPipeline {
                        command_buffer: self.active,
                        pipeline_bind_point: native::PIPELINE_BIND_POINT_GRAPHICS,
                        pipeline: pipeline.handle,
                    },
                )
            } else {
                Err::<native::BindPipeline, ProtocolViolation>(ProtocolViolation::NotRecording)
            },
    {
        if self.active == native::NULL_HANDLE {
            return Err(ProtocolViolation::NotRecording);
        }
        Ok(
            native::BindPipeline {
                command_buffer: self.active,
                pipeline_bind_point: native::PIPELINE_BIND_POINT_GRAPHICS,
                pipeline: pipeline.handle,
            },
        )
    }

    /// Records a draw. The counts are the lengths of the ranges, the first
    /// vertex and the first instance are their lower bounds.
    pub fn draw(&self, vertex: Range<u32>, instance: Range<u32>) -> (draw: Result<
        native::Draw,
        ProtocolViolation,
    >)
        ensures
            draw == if self.state().records() {
                Ok::<native::Draw, ProtocolViolation>(
                    native::Draw {
                        command_buffer: self.active,
                        vertex_count: range_len(vertex),
                        instance_count: range_len(instance),
                        first_vertex: vertex.start,
                        first_instance: instance.start,
                    },
                )
            } else {
                Err::<native::Draw, ProtocolViolation>(ProtocolViolation::NotRecording)
            },
            draw.is_ok() && vertex.start <= vertex.end ==> draw.unwrap().vertex_count
                == vertex.end - vertex.start,
            draw.is_ok() && instance.start <= instance.end ==> draw.unwrap().instance_count
                == instance.end - instance.start,
    {
        if self.active == native::NULL_HANDLE {
            return Err(ProtocolViolation::NotRecording);
        }
        let vertex_count: u32 = if vertex.start < vertex.end {
            vertex.end - vertex.start
        } else {
            0
        };
        let instance_count: u32 = if instance.start < instance.end {
            instance.end - instance.start
        } else {
            0
        };
        Ok(
            native::Draw {
                command_buffer: self.active,
                vertex_count,
                instance_count,
                first_vertex: vertex.start,
                first_instance: instance.start,
            },
        )
    }

    /// Records the binding of a vertex buffer at the binding `index`, at the
    /// offset of the buffer's memory block.
    pub fn bind_vertex_buffer(&self, index: u32, buffer: &Buffer) -> (bind: Result<
        native::BindVertexBuffer,
        ProtocolViolation,
    >)
        ensures
            bind == if self.state().records() {
                Ok::<native::BindVertexBuffer, ProtocolViolation>(
                    native::BindVertexBuffer {
                        command_buffer: self.active,
                        first_binding: index,
                        buffer: buffer.handle,
                        offset: buffer.block.offset,
                    },
                )
            } else {
                Err::<native::BindVertexBuffer, ProtocolViolation>(
                    ProtocolViolation::NotRecording,
                )
            },
    {
        if self.active == native::NULL_HANDLE {
            return Err(ProtocolViolation::NotRecording);
        }
        Ok(
            native::BindVertexBuffer {
                command_buffer: self.active,
                first_binding: index,
                buffer: buffer.handle,
                offset: buffer.block.offset,
            },
        )
    }

    /// Records the upload of push constants: the bytes `data`, at the byte
    /// offset `offset`, for the native stages of `stages`.
    pub fn push_constants<'a>(
        &self,
        layout: &PipelineLayout,
        stages: ShaderStages,
        offset: u32,
        data: &'a [u8],
    ) -> (push: Result<native::PushConstants<'a>, ProtocolViolation>)
        ensures
            match push {
                Ok(upload) => {
                    &&& self.state().records()
                    &&& upload.command_buffer == self.active
                    &&& upload.layout == layout.handle
                    &&& upload.stage_flags == native_shader_stages(stages)
                    &&& upload.offset == offset
                    &&& upload.values@ == data@
                },
                Err(violation) => !self.state().records() && violation
                    == ProtocolViolation::NotRecording,
            },
    {
        if self.active == native::NULL_HANDLE {
            return Err(ProtocolViolation::NotRecording);
        }
        Ok(
            native::PushConstants {
                command_buffer: self.active,
                layout: layout.handle,
                stage_flags: map_shader_stage(stages),
                offset,
                values: data,
            },
        )
    }

    /// The steps of tearing the encoder down. The device is idle before
    /// anything is freed; the active buffer, the pooled primary buffers and
    /// the pooled secondary buffers are freed in this order, each only if
    /// there is one; the command pool is destroyed last.
    pub open spec fn teardown_steps(&self) -> Seq<TeardownStep> {
        seq![TeardownStep::WaitIdle] + (if self.state().records() {
            seq![TeardownStep::FreeActive { buffer: self.active }]
        } else {
            seq![]
        }) + (if self.primary@.len() > 0 {
            seq![TeardownStep::FreePrimary]
        } else {
            seq![]
        }) + (if self.secondary@.len() > 0 {
            seq![TeardownStep::FreeSecondary]
        } else {
            seq![]
        }) + seq![TeardownStep::DestroyPool]
    }

    /// Tears the encoder down and says what to release, step by step.
    pub fn teardown(self) -> (released: Teardown)
        ensures
            released.steps@ == self.teardown_steps(),
            released.command_pool == self.handle,
            released.primary == self.primary,
            released.secondary == self.secondary,
    {
        let mut steps: Vec<TeardownStep> = Vec::new();
        steps.push(TeardownStep::WaitIdle);
        if self.active != native::NULL_HANDLE {
            steps.push(TeardownStep::FreeActive { buffer: self.active });
        }
        if self.primary.len() > 0 {
            steps.push(TeardownStep::FreePrimary);
        }
        if self.secondary.len() > 0 {
            steps.push(TeardownStep::FreeSecondary);
        }
        steps.push(TeardownStep::DestroyPool);
        assert(steps@ =~= self.teardown_steps());
        Teardown {
            steps,
            command_pool: self.handle,
            primary: self.primary,
            secondary: self.secondary,
        }
    }
}

} // verus!
