//! The driver calls that the managed layer asks its caller to make, as plain values.
use vstd::prelude::*;
use crate::error::DriverCall;

verus! {

/// One call into the driver, with the handles and numbers it is made with.
///
/// The calls that create an object are described by the `*CreateInfo` records of the
/// modules that wrap the object; here are the calls that release and that record.
#[derive(Clone, Copy, Debug, PartialEq, Eq, Structural)]
pub enum NativeCall {
    DestroyInstance { instance: u64 },
    DestroyDevice { device: u64 },
    DestroyCommandPool { device: u64, pool: u64 },
    DestroyImage { device: u64, image: u64 },
    FreeMemory { device: u64, memory: u64 },
    DestroyPipeline { device: u64, pipeline: u64 },
    DestroyPipelineLayout { device: u64, layout: u64 },
    DestroyRenderPass { device: u64, render_pass: u64 },
    DestroyFramebuffer { device: u64, framebuffer: u64 },
    DestroyImageView { device: u64, view: u64 },
    BeginCommandBuffer { command_buffer: u64 },
    CmdBeginRenderPass { command_buffer: u64, render_pass: u64, framebuffer: u64, width: u32, height: u32 },
    CmdBindPipeline { command_buffer: u64, pipeline: u64 },
    CmdSetViewport { command_buffer: u64, width: u32, height: u32 },
    CmdSetScissor { command_buffer: u64, width: u32, height: u32 },
    CmdDraw { command_buffer: u64, vertex_count: u32, instance_count: u32, first_vertex: u32, first_instance: u32 },
    CmdEndRenderPass { command_buffer: u64 },
    EndCommandBuffer { command_buffer: u64 },
    QueueSubmit { queue: u64, command_buffer: u64 },
    DeviceWaitIdle { device: u64 },
}

impl NativeCall {
    /// The entry point whose status this call reports, if it reports one.
    pub open spec fn status_of(self) -> Option<DriverCall> {
        match self {
            NativeCall::BeginCommandBuffer { .. } => Some(DriverCall::BeginCommandBuffer),
            NativeCall::EndCommandBuffer { .. } => Some(DriverCall::EndCommandBuffer),
            NativeCall::QueueSubmit { .. } => Some(DriverCall::QueueSubmit),
            NativeCall::DeviceWaitIdle { .. } => Some(DriverCall::DeviceWaitIdle),
            _ => None,
        }
    }

    pub fn status_call(&self) -> (call: Option<DriverCall>)
        ensures
            call == self.status_of(),
    {
        match *self {
            NativeCall::BeginCommandBuffer { .. } => Some(DriverCall::BeginCommandBuffer),
            NativeCall::EndCommandBuffer { .. } => Some(DriverCall::EndCommandBuffer),
            NativeCall::QueueSubmit { .. } => Some(DriverCall::QueueSubmit),
            NativeCall::DeviceWaitIdle { .. } => Some(DriverCall::DeviceWaitIdle),
            _ => None,
        }
    }
}

} // verus!
