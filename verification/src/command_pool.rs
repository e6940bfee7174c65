//! The pool that command buffers are allocated from, and the buffer that records a draw.
use vstd::prelude::*;
use crate::error::{handle_or_error, reply_outcome, DriverCall, Error};
use crate::framebuffer::ManagedFramebuffer;
use crate::logical_device::{LogicalDeviceModel, ManagedLogicalDevice};
use crate::native::NativeCall;
use crate::render_pass::{ManagedPipeline, ManagedRenderPass};
use crate::script::{after_replies, fresh, lemma_done_after_every_call, progress, Progress, Script};

verus! {

/// What the driver is asked for when a command pool is created.
#[derive(Clone, Copy, Debug, PartialEq, Eq, Structural)]
pub struct CommandPoolCreateInfo {
    pub device: u64,
    pub queue_family_index: u32,
}

/// What the driver is asked for when command buffers are allocated.
#[derive(Clone, Copy, Debug, PartialEq, Eq, Structural)]
pub struct CommandBufferAllocateInfo {
    pub device: u64,
    pub command_pool: u64,
    pub command_buffer_count: u32,
}

/// What a command pool stands for.
pub struct CommandPoolModel {
    pub device: u64,
    pub raw: u64,
    pub queue_family_index: u32,
}

/// What a command buffer stands for.
pub struct CommandBufferModel {
    pub device: u64,
    pub pool: u64,
    pub raw: u64,
}

/// A command pool. It borrows its device, and its buffers borrow it.
#[derive(Debug)]
pub struct ManagedCommandPool<'a> {
    device: &'a ManagedLogicalDevice<'a>,
    raw: u64,
    queue_family_index: u32,
}

impl<'a> View for ManagedCommandPool<'a> {
    type V = CommandPoolModel;

    closed spec fn view(&self) -> CommandPoolModel {
        CommandPoolModel { device: self.device@.raw, raw: self.raw, queue_family_index: self.queue_family_index }
    }
}

/// A command buffer, valid as long as its pool. It is released with the pool.
#[derive(Debug)]
pub struct ManagedCommandBuffer<'a> {
    pool: &'a ManagedCommandPool<'a>,
    raw: u64,
}

impl<'a> View for ManagedCommandBuffer<'a> {
    type V = CommandBufferModel;

    closed spec fn view(&self) -> CommandBufferModel {
        CommandBufferModel { device: self.pool@.device, pool: self.pool@.raw, raw: self.raw }
    }
}

/// The calls that draw one triangle: begin to record; begin the render pass on the
/// framebuffer, cleared, over the whole area; bind the pipeline; set viewport and scissor
/// to the area; draw three vertices once; end the render pass; end to record; submit; wait
/// until the device is idle.
pub open spec fn triangle_calls(
    buffer: CommandBufferModel,
    queue: u64,
    render_pass: u64,
    framebuffer: u64,
    pipeline: u64,
    width: u32,
    height: u32,
) -> Seq<NativeCall> {
    seq![
        NativeCall::BeginCommandBuffer { command_buffer: buffer.raw },
        NativeCall::CmdBeginRenderPass { command_buffer: buffer.raw, render_pass, framebuffer, width, height },
        NativeCall::CmdBindPipeline { command_buffer: buffer.raw, pipeline },
        NativeCall::CmdSetViewport { command_buffer: buffer.raw, width, height },
        NativeCall::CmdSetScissor { command_buffer: buffer.raw, width, height },
        NativeCall::CmdDraw {
            command_buffer: buffer.raw,
            vertex_count: 3,
            instance_count: 1,
            first_vertex: 0,
            first_instance: 0,
        },
        NativeCall::CmdEndRenderPass { command_buffer: buffer.raw },
        NativeCall::EndCommandBuffer { command_buffer: buffer.raw },
        NativeCall::QueueSubmit { queue, command_buffer: buffer.raw },
        NativeCall::DeviceWaitIdle { device: buffer.device },
    ]
}

/// A draw ends with success only after all ten of its calls were answered: the last of
/// them is the wait for the device, and the submission comes just before it.
pub proof fn lemma_draw_ends_after_the_wait(
    buffer: CommandBufferModel,
    queue: u64,
    render_pass: u64,
    framebuffer: u64,
    pipeline: u64,
    width: u32,
    height: u32,
    statuses: Seq<Result<(), i32>>,
)
    requires
        progress(
            after_replies(
                fresh(triangle_calls(buffer, queue, render_pass, framebuffer, pipeline, width, height)),
                statuses,
            ),
        ) == Progress::Done,
    ensures
        statuses.len() >= 10,
        triangle_calls(buffer, queue, render_pass, framebuffer, pipeline, width, height).len() == 10,
        triangle_calls(buffer, queue, render_pass, framebuffer, pipeline, width, height)[8] == (NativeCall::QueueSubmit {
            queue,
            command_buffer: buffer.raw,
        }),
        triangle_calls(buffer, queue, render_pass, framebuffer, pipeline, width, height)[9] == (NativeCall::DeviceWaitIdle {
            device: buffer.device,
        }),
{
    lemma_done_after_every_call(
        triangle_calls(buffer, queue, render_pass, framebuffer, pipeline, width, height),
        statuses,
    );
}

impl<'a> ManagedCommandPool<'a> {
    /// `r` is what the creation of a pool for `queue_family_index` gives when the driver
    /// answers `created`.
    pub open spec fn created_as(
        device: LogicalDeviceModel,
        queue_family_index: u32,
        created: Result<u64, i32>,
        r: Result<ManagedCommandPool<'a>, Error>,
    ) -> bool {
        match r {
            Ok(pool) => created is Ok && pool@ == (CommandPoolModel {
                device: device.raw,
                raw: created->Ok_0,
                queue_family_index,
            }),
            Err(e) => reply_outcome(DriverCall::CreateCommandPool, created) == Err::<u64, Error>(e),
        }
    }

    /// Wraps what the driver answered to the creation of a pool for `queue_family_index`.
    pub fn new(device: &'a ManagedLogicalDevice<'a>, queue_family_index: u32, created: Result<u64, i32>) -> (r:
        Result<ManagedCommandPool<'a>, Error>)
        ensures
            Self::created_as(device@, queue_family_index, created, r),
    {
        match handle_or_error(DriverCall::CreateCommandPool, created) {
            Ok(raw) => Ok(ManagedCommandPool { device, raw, queue_family_index }),
            Err(e) => Err(e),
        }
    }

    pub fn get_raw(&self) -> (raw: u64)
        ensures
            raw == self@.raw,
    {
        self.raw
    }

    /// The allocation to ask for: one buffer of this pool.
    pub fn allocate_info(&self) -> (info: CommandBufferAllocateInfo)
        ensures
            info == (CommandBufferAllocateInfo {
                device: self@.device,
                command_pool: self@.raw,
                command_buffer_count: 1,
            }),
    {
        CommandBufferAllocateInfo {
            device: self.device.get_raw(),
            command_pool: self.raw,
            command_buffer_count: 1,
        }
    }

    /// Wraps what the driver answered to the allocation of one buffer.
    pub fn allocate_command_buffer(&'a self, allocated: Result<u64, i32>) -> (r: Result<
        ManagedCommandBuffer<'a>,
        Error,
    >)
        ensures
            match r {
                Ok(buffer) => allocated is Ok && buffer@ == (CommandBufferModel {
                    device: self@.device,
                    pool: self@.raw,
                    raw: allocated->Ok_0,
                }),
                Err(e) => reply_outcome(DriverCall::AllocateCommandBuffers, allocated) == Err::<u64, Error>(e),
            },
    {
        match handle_or_error(DriverCall::AllocateCommandBuffers, allocated) {
            Ok(raw) => Ok(ManagedCommandBuffer { pool: self, raw }),
            Err(e) => Err(e),
        }
    }

    /// Gives the pool up, and with it the buffers that were allocated from it.
    pub fn teardown(self) -> (call: NativeCall)
        ensures
            call == (NativeCall::DestroyCommandPool { device: self@.device, pool: self@.raw }),
    {
        NativeCall::DestroyCommandPool { device: self.device.get_raw(), pool: self.raw }
    }
}

impl<'a> ManagedCommandBuffer<'a> {
    pub fn get_raw(&self) -> (raw: u64)
        ensures
            raw == self@.raw,
    {
        self.raw
    }

    /// The script that draws one triangle and waits for the device. It ends with success
    /// only after the wait, and with the first failure otherwise.
    pub fn draw_triangle(
        &self,
        queue: u64,
        render_pass: &ManagedRenderPass<'_>,
        framebuffer: &ManagedFramebuffer<'_>,
        pipeline: &ManagedPipeline<'_>,
        width: u32,
        height: u32,
    ) -> (script: Script)
        ensures
            script@ == fresh(
                triangle_calls(self@, queue, render_pass@.raw, framebuffer@.raw, pipeline@.raw, width, height),
            ),
    {
        let command_buffer = self.raw;
        let mut calls: Vec<NativeCall> = Vec::new();
        calls.push(NativeCall::BeginCommandBuffer { command_buffer });
        calls.push(
            NativeCall::CmdBeginRenderPass {
                command_buffer,
                render_pass: render_pass.get_raw(),
                framebuffer: framebuffer.get_raw(),
                width,
                height,
            },
        );
        calls.push(NativeCall::CmdBindPipeline { command_buffer, pipeline: pipeline.get_raw() });
        calls.push(NativeCall::CmdSetViewport { command_buffer, width, height });
        calls.push(NativeCall::CmdSetScissor { command_buffer, width, height });
        calls.push(
            NativeCall::CmdDraw {
                command_buffer,
                vertex_count: 3,
                instance_count: 1,
                first_vertex: 0,
                first_instance: 0,
            },
        );
        calls.push(NativeCall::CmdEndRenderPass { command_buffer });
        calls.push(NativeCall::EndCommandBuffer { command_buffer });
        calls.push(NativeCall::QueueSubmit { queue, command_buffer });
        calls.push(NativeCall::DeviceWaitIdle { device: self.pool.device.get_raw() });
        assert(calls@ =~= triangle_calls(
            self@,
            queue,
            render_pass@.raw,
            framebuffer@.raw,
            pipeline@.raw,
            width,
            height,
        ));
        Script::new(calls)
    }
}

} // verus!
