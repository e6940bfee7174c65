//! The device context: created against one physical device, parent of everything that
//! renders.
use vstd::prelude::*;
use crate::command_pool::{CommandPoolCreateInfo, ManagedCommandPool};
use crate::error::{handle_or_error, reply_outcome, DriverCall, Error};
use crate::flags::{includes, QUEUE_GRAPHICS};
use crate::framebuffer::{image_view_info, ImageAttachment, ImageViewCreateInfo};
use crate::image::{image_info, ImageCreateInfo, ManagedAndOptimizedImage, UnboundImage};
use crate::instance::ManagedInstance;
use crate::native::NativeCall;
use crate::physical_device::{
    first_graphics_family,
    is_graphics_family,
    select_graphics_queue_family,
    ManagedPhysicalDevice,
    PhysicalDeviceModel,
    QueueFamilyProperties,
};
use crate::render_pass::{ManagedRenderPass, RenderPassCreateInfo};

verus! {

/// What the driver is asked for when a device is created: one queue of one family.
#[derive(Clone, Copy, Debug, PartialEq, Eq, Structural)]
pub struct DeviceCreateInfo {
    pub physical_device: u64,
    pub queue_family_index: u32,
    pub queue_count: u32,
}

/// The place of a queue: its family, and its index in the family.
#[derive(Clone, Copy, Debug, PartialEq, Eq, Structural)]
pub struct QueueSlot {
    pub family_index: u32,
    pub queue_index: u32,
}

/// What a device stands for.
pub struct LogicalDeviceModel {
    pub instance: u64,
    pub physical_device: u64,
    pub raw: u64,
    pub queue_indices: Seq<u32>,
}

/// `info` asks for a device of `physical_device`, whose queue families are `families`:
/// one queue of the first family that can do graphics.
pub open spec fn chosen_for(
    physical_device: PhysicalDeviceModel,
    families: Seq<QueueFamilyProperties>,
    info: DeviceCreateInfo,
) -> bool {
    &&& info.physical_device == physical_device.raw
    &&& first_graphics_family(families, info.queue_family_index as int)
    &&& info.queue_count == 1
}

/// The device that stands for the handle `raw`, which the driver gave for `info`.
pub open spec fn created_from(instance: u64, info: DeviceCreateInfo, raw: u64) -> LogicalDeviceModel {
    LogicalDeviceModel {
        instance,
        physical_device: info.physical_device,
        raw,
        queue_indices: seq![info.queue_family_index],
    }
}

/// The graphics queue of a device: the first queue of the first family it holds.
pub open spec fn graphics_queue(device: LogicalDeviceModel) -> QueueSlot {
    QueueSlot { family_index: device.queue_indices[0], queue_index: 0 }
}

/// A device context. It borrows its instance, and what is created from it borrows it.
#[derive(Debug)]
pub struct ManagedLogicalDevice<'a> {
    instance: &'a ManagedInstance,
    physical_device: u64,
    device_raw: u64,
    queue_indices: Vec<u32>,
}

impl<'a> View for ManagedLogicalDevice<'a> {
    type V = LogicalDeviceModel;

    closed spec fn view(&self) -> LogicalDeviceModel {
        LogicalDeviceModel {
            instance: self.instance@,
            physical_device: self.physical_device,
            raw: self.device_raw,
            queue_indices: self.queue_indices@,
        }
    }
}

impl<'a> ManagedLogicalDevice<'a> {
    /// A device holds at least one queue family.
    #[verifier::type_invariant]
    spec fn has_queue_family(self) -> bool {
        self.queue_indices@.len() > 0
    }

    /// Chooses the queue family: the first that can do graphics. Without one there is no
    /// device to ask for.
    pub fn create_info(physical_device: &ManagedPhysicalDevice<'a>, families: &Vec<QueueFamilyProperties>) -> (info:
        Option<DeviceCreateInfo>)
        requires
            families.len() <= u32::MAX,
        ensures
            match info {
                Some(info) => chosen_for(physical_device@, families@, info),
                None => forall|j: int| !is_graphics_family(families@, j),
            },
    {
        match select_graphics_queue_family(families) {
            Some(queue_family_index) => Some(
                DeviceCreateInfo {
                    physical_device: physical_device.get_raw(),
                    queue_family_index,
                    queue_count: 1,
                },
            ),
            None => None,
        }
    }

    /// Wraps what the driver answered to the creation that `info` describes. The device
    /// keeps the one family that was chosen.
    pub fn create(instance: &'a ManagedInstance, info: &DeviceCreateInfo, created: Result<u64, i32>) -> (r:
        Result<ManagedLogicalDevice<'a>, Error>)
        ensures
            match r {
                Ok(device) => created is Ok && device@ == created_from(instance@, *info, created->Ok_0),
                Err(e) => reply_outcome(DriverCall::CreateDevice, created) == Err::<u64, Error>(e),
            },
    {
        match handle_or_error(DriverCall::CreateDevice, created) {
            Ok(device_raw) => {
                let mut queue_indices: Vec<u32> = Vec::new();
                queue_indices.push(info.queue_family_index);
                Ok(
                    ManagedLogicalDevice {
                        instance,
                        physical_device: info.physical_device,
                        device_raw,
                        queue_indices,
                    },
                )
            },
            Err(e) => Err(e),
        }
    }

    /// Wraps a device that exists, with the queue families it was created with, the
    /// graphics family first.
    pub fn new(instance: &'a ManagedInstance, physical_device: u64, device_raw: u64, queue_indices: Vec<u32>) -> (device:
        ManagedLogicalDevice<'a>)
        requires
            queue_indices@.len() > 0,
        ensures
            device@ == (LogicalDeviceModel {
                instance: instance@,
                physical_device,
                raw: device_raw,
                queue_indices: queue_indices@,
            }),
    {
        ManagedLogicalDevice { instance, physical_device, device_raw, queue_indices }
    }

    pub fn get_raw(&self) -> (raw: u64)
        ensures
            raw == self@.raw,
    {
        self.device_raw
    }

    pub fn physical_device(&self) -> (raw: u64)
        ensures
            raw == self@.physical_device,
    {
        self.physical_device
    }

    pub fn instance(&self) -> (instance: &'a ManagedInstance)
        ensures
            instance@ == self@.instance,
    {
        self.instance
    }

    /// The place of the graphics queue: index 0 of the family that the device holds first.
    pub fn get_graphics_queue(&self) -> (slot: QueueSlot)
        ensures
            self@.queue_indices.len() > 0,
            slot == graphics_queue(self@),
    {
        proof {
            use_type_invariant(self);
        }
        QueueSlot { family_index: self.queue_indices[0], queue_index: 0 }
    }

    /// The command pool to ask for: one for the graphics family.
    pub fn command_pool_info(&self) -> (info: CommandPoolCreateInfo)
        ensures
            info == (CommandPoolCreateInfo {
                device: self@.raw,
                queue_family_index: graphics_queue(self@).family_index,
            }),
    {
        proof {
            use_type_invariant(self);
        }
        CommandPoolCreateInfo { device: self.device_raw, queue_family_index: self.queue_indices[0] }
    }

    /// Wraps what the driver answered to the creation of the command pool.
    pub fn create_command_pool(&'a self, created: Result<u64, i32>) -> (r: Result<ManagedCommandPool<'a>, Error>)
        ensures
            ManagedCommandPool::created_as(self@, graphics_queue(self@).family_index, created, r),
    {
        proof {
            use_type_invariant(self);
        }
        ManagedCommandPool::new(self, self.queue_indices[0], created)
    }

    /// The optimized image to ask for.
    pub fn optimized_image_info(&self, width: u32, height: u32) -> (info: ImageCreateInfo)
        ensures
            info == image_info(false, self@, width, height),
    {
        UnboundImage::<false>::create_info(self, width, height)
    }

    /// Wraps what the driver answered to the creation of an optimized image. The image has
    /// no memory yet.
    pub fn create_optimized_image(&'a self, width: u32, height: u32, created: Result<u64, i32>) -> (r: Result<
        UnboundImage<'a, false>,
        Error,
    >)
        ensures
            UnboundImage::<false>::created_as(self@, width, height, created, r),
    {
        UnboundImage::<false>::new(self, width, height, created)
    }

    /// The linear image to ask for.
    pub fn linear_image_info(&self, width: u32, height: u32) -> (info: ImageCreateInfo)
        ensures
            info == image_info(true, self@, width, height),
    {
        UnboundImage::<true>::create_info(self, width, height)
    }

    /// Wraps what the driver answered to the creation of a linear image. The image has no
    /// memory yet.
    pub fn create_linear_image(&'a self, width: u32, height: u32, created: Result<u64, i32>) -> (r: Result<
        UnboundImage<'a, true>,
        Error,
    >)
        ensures
            UnboundImage::<true>::created_as(self@, width, height, created, r),
    {
        UnboundImage::<true>::new(self, width, height, created)
    }

    /// The render pass to ask for.
    pub fn render_pass_info(&self) -> (info: RenderPassCreateInfo)
        ensures
            info == ManagedRenderPass::info_for(self@),
    {
        ManagedRenderPass::create_info(self)
    }

    /// Wraps what the driver answered to the creation of the render pass.
    pub fn create_render_pass(&'a self, created: Result<u64, i32>) -> (r: Result<ManagedRenderPass<'a>, Error>)
        ensures
            ManagedRenderPass::created_as(self@, created, r),
    {
        ManagedRenderPass::new(self, created)
    }

    /// The view to ask for: that of the image which the framebuffer is to bind.
    pub fn image_view_info(&self, connectable_image: &ManagedAndOptimizedImage<'a>) -> (info: ImageViewCreateInfo)
        ensures
            info == image_view_info(self@, connectable_image@),
    {
        ImageAttachment::create_info(self, connectable_image)
    }

    /// Begins the framebuffer: wraps what the driver answered to the creation of the view
    /// of the image. The framebuffer itself follows. The width and the height are those of
    /// the image: that they are is the caller's to see to.
    pub fn create_framebuffer(
        &'a self,
        render_pass: &'a ManagedRenderPass<'a>,
        connectable_image: &'a ManagedAndOptimizedImage<'a>,
        width: u32,
        height: u32,
        view: Result<u64, i32>,
    ) -> (r: Result<ImageAttachment<'a>, Error>)
        requires
            width == connectable_image@.width,
            height == connectable_image@.height,
        ensures
            ImageAttachment::created_as(self@, render_pass@, connectable_image@, width, height, view, r),
    {
        ImageAttachment::new(self, render_pass, connectable_image, width, height, view)
    }

    /// Gives the device up. What was created from it has been given up before: it borrowed
    /// the device.
    pub fn teardown(self) -> (call: NativeCall)
        ensures
            call == (NativeCall::DestroyDevice { device: self@.raw }),
    {
        NativeCall::DestroyDevice { device: self.device_raw }
    }
}

/// A device that is created for a physical device of an instance, with the family chosen
/// among the families of that physical device, refers to that instance and to that
/// physical device, owns the one handle that the driver gave, and keeps one family. That
/// family is among those of the physical device, it is the first of them that can do
/// graphics, and the graphics queue of the device is its first queue.
pub proof fn lemma_created_device_is_of_its_physical_device(
    physical_device: PhysicalDeviceModel,
    families: Seq<QueueFamilyProperties>,
    info: DeviceCreateInfo,
    raw: u64,
    device: LogicalDeviceModel,
)
    requires
        chosen_for(physical_device, families, info),
        device == created_from(physical_device.instance, info, raw),
    ensures
        device.instance == physical_device.instance,
        device.physical_device == physical_device.raw,
        device.raw == raw,
        device.queue_indices.len() == 1,
        graphics_queue(device) == (QueueSlot { family_index: info.queue_family_index, queue_index: 0 }),
        first_graphics_family(families, graphics_queue(device).family_index as int),
        0 <= graphics_queue(device).family_index < families.len(),
        families[graphics_queue(device).family_index as int].queue_flags & QUEUE_GRAPHICS == QUEUE_GRAPHICS,
{
}

/// The graphics queue of a device that was created for the first graphics family is the
/// first queue of that family, and the family can do graphics.
pub proof fn lemma_graphics_queue_is_of_chosen_family(
    families: Seq<QueueFamilyProperties>,
    info: DeviceCreateInfo,
    device: LogicalDeviceModel,
)
    requires
        first_graphics_family(families, info.queue_family_index as int),
        device.queue_indices == seq![info.queue_family_index],
    ensures
        graphics_queue(device).family_index == info.queue_family_index,
        graphics_queue(device).queue_index == 0,
        0 <= graphics_queue(device).family_index < families.len(),
        includes(families[graphics_queue(device).family_index as int].queue_flags, QUEUE_GRAPHICS),
        forall|j: int|
            0 <= j < graphics_queue(device).family_index ==> !includes(
                (#[trigger] families[j]).queue_flags,
                QUEUE_GRAPHICS,
            ),
{
    let chosen = info.queue_family_index as int;
    assert forall|j: int| 0 <= j < chosen implies !includes((#[trigger] families[j]).queue_flags, QUEUE_GRAPHICS) by {
        assert(!is_graphics_family(families, j));
    }
}

} // verus!
