//! The failures that the managed layer reports to its caller.
use vstd::prelude::*;
use crate::native::NativeCall;

verus! {

/// The driver entry points that report a status, and can therefore fail.
#[derive(Clone, Copy, Debug, PartialEq, Eq, Structural)]
pub enum DriverCall {
    EnumerateInstanceLayerProperties,
    CreateInstance,
    EnumeratePhysicalDevices,
    CreateDevice,
    CreateCommandPool,
    AllocateCommandBuffers,
    CreateImage,
    AllocateMemory,
    BindImageMemory,
    CreateRenderPass,
    CreatePipelineLayout,
    CreateGraphicsPipelines,
    CreateImageView,
    CreateFramebuffer,
    BeginCommandBuffer,
    EndCommandBuffer,
    QueueSubmit,
    DeviceWaitIdle,
}

impl DriverCall {
    /// The sentence that describes a failure of this entry point.
    pub open spec fn context_text(self) -> Seq<char> {
        match self {
            DriverCall::EnumerateInstanceLayerProperties => "Failed to enumerate instance layers"@,
            DriverCall::CreateInstance => "Failed to create Vulkan instance"@,
            DriverCall::EnumeratePhysicalDevices => "Failed to enumerate physical devices"@,
            DriverCall::CreateDevice => "Failed to create logical device"@,
            DriverCall::CreateCommandPool => "Failed to create command pool"@,
            DriverCall::AllocateCommandBuffers => "Failed to allocate command buffer"@,
            DriverCall::CreateImage => "Failed to create image"@,
            DriverCall::AllocateMemory => "Failed to allocate image memory"@,
            DriverCall::BindImageMemory => "Failed to bind image memory"@,
            DriverCall::CreateRenderPass => "Failed to create render pass"@,
            DriverCall::CreatePipelineLayout => "Failed to create pipeline layout"@,
            DriverCall::CreateGraphicsPipelines => "Failed to create graphics pipeline"@,
            DriverCall::CreateImageView => "Failed to create image view"@,
            DriverCall::CreateFramebuffer => "Failed to create framebuffer"@,
            DriverCall::BeginCommandBuffer => "Failed to begin command buffer"@,
            DriverCall::EndCommandBuffer => "Failed to end command buffer"@,
            DriverCall::QueueSubmit => "Failed to submit command buffer"@,
            DriverCall::DeviceWaitIdle => "Failed to wait for device idle"@,
        }
    }

    pub fn context(&self) -> (text: &'static str)
        ensures
            text@ == self.context_text(),
    {
        match *self {
            DriverCall::EnumerateInstanceLayerProperties => "Failed to enumerate instance layers",
            DriverCall::CreateInstance => "Failed to create Vulkan instance",
            DriverCall::EnumeratePhysicalDevices => "Failed to enumerate physical devices",
            DriverCall::CreateDevice => "Failed to create logical device",
            DriverCall::CreateCommandPool => "Failed to create command pool",
            DriverCall::AllocateCommandBuffers => "Failed to allocate command buffer",
            DriverCall::CreateImage => "Failed to create image",
            DriverCall::AllocateMemory => "Failed to allocate image memory",
            DriverCall::BindImageMemory => "Failed to bind image memory",
            DriverCall::CreateRenderPass => "Failed to create render pass",
            DriverCall::CreatePipelineLayout => "Failed to create pipeline layout",
            DriverCall::CreateGraphicsPipelines => "Failed to create graphics pipeline",
            DriverCall::CreateImageView => "Failed to create image view",
            DriverCall::CreateFramebuffer => "Failed to create framebuffer",
            DriverCall::BeginCommandBuffer => "Failed to begin command buffer",
            DriverCall::EndCommandBuffer => "Failed to end command buffer",
            DriverCall::QueueSubmit => "Failed to submit command buffer",
            DriverCall::DeviceWaitIdle => "Failed to wait for device idle",
        }
    }
}

/// Why a constructor or a method of the managed layer failed.
#[derive(Clone, Copy, Debug, PartialEq, Eq, Structural)]
pub enum Error {
    /// The driver answered `call` with the status `code`, which is not success.
    DriverCallFailed { call: DriverCall, code: i32 },
    /// The requested validation layer at `index` is not among those the driver offers.
    LayerUnsupported { index: usize },
    /// No memory type of the physical device meets an image's requirements.
    NoSuitableMemoryType,
}

/// A failure in the middle of a creation: the error to report, and the calls that release
/// what the creation had already obtained, in the order in which to make them.
#[derive(Debug, PartialEq, Eq)]
pub struct Failure {
    pub error: Error,
    pub cleanup: Vec<NativeCall>,
}

/// What the driver answered to a call that hands out a handle: the handle, or a status.
pub open spec fn reply_outcome(call: DriverCall, reply: Result<u64, i32>) -> Result<u64, Error> {
    match reply {
        Ok(handle) => Ok(handle),
        Err(code) => Err(Error::DriverCallFailed { call, code }),
    }
}

/// Turns the driver's answer to `call` into a handle or the error that names the call.
pub fn handle_or_error(call: DriverCall, reply: Result<u64, i32>) -> (r: Result<u64, Error>)
    ensures
        r == reply_outcome(call, reply),
{
    match reply {
        Ok(handle) => Ok(handle),
        Err(code) => Err(Error::DriverCallFailed { call, code }),
    }
}

} // verus!
