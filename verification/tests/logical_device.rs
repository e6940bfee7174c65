use game::command_pool::CommandPoolCreateInfo;
use game::framebuffer::{FramebufferCreateInfo, ImageViewCreateInfo};
use game::image::ImageCreateInfo;
use game::render_pass::RenderPassCreateInfo;
use game::{
    DeviceCreateInfo, DriverCall, Error, ManagedInstance, ManagedLogicalDevice, NativeCall, QueueFamilyProperties,
    QueueSlot,
};

fn family(queue_flags: u32) -> QueueFamilyProperties {
    QueueFamilyProperties { queue_flags, queue_count: 4 }
}

#[test]
fn create_info_chooses_the_first_graphics_family() {
    let instance = ManagedInstance::new(Ok(1)).unwrap();
    let physical = instance.enumerate_physical_device(Ok(vec![9])).unwrap()[0];
    let families = vec![family(0x4), family(0x3), family(0x1)];
    let info = ManagedLogicalDevice::create_info(&physical, &families);
    assert_eq!(info, Some(DeviceCreateInfo { physical_device: 9, queue_family_index: 1, queue_count: 1 }));
}

#[test]
fn create_info_without_a_graphics_family() {
    let instance = ManagedInstance::new(Ok(1)).unwrap();
    let physical = instance.enumerate_physical_device(Ok(vec![9])).unwrap()[0];
    assert_eq!(ManagedLogicalDevice::create_info(&physical, &vec![family(0x6)]), None);
    assert_eq!(ManagedLogicalDevice::create_info(&physical, &Vec::new()), None);
}

#[test]
fn create_wraps_the_device() {
    let instance = ManagedInstance::new(Ok(1)).unwrap();
    let info = DeviceCreateInfo { physical_device: 9, queue_family_index: 2, queue_count: 1 };
    let device = ManagedLogicalDevice::create(&instance, &info, Ok(40)).unwrap();
    assert_eq!(device.get_raw(), 40);
    assert_eq!(device.physical_device(), 9);
    assert_eq!(device.instance().get_raw(), 1);
    assert_eq!(device.get_graphics_queue(), QueueSlot { family_index: 2, queue_index: 0 });
}

#[test]
fn create_reports_the_driver_failure() {
    let instance = ManagedInstance::new(Ok(1)).unwrap();
    let info = DeviceCreateInfo { physical_device: 9, queue_family_index: 2, queue_count: 1 };
    let r = ManagedLogicalDevice::create(&instance, &info, Err(-4));
    assert_eq!(r.err(), Some(Error::DriverCallFailed { call: DriverCall::CreateDevice, code: -4 }));
}

#[test]
fn graphics_queue_is_the_first_queue_of_the_chosen_family() {
    let instance = ManagedInstance::new(Ok(1)).unwrap();
    let physical = instance.enumerate_physical_device(Ok(vec![9])).unwrap()[0];
    let families = vec![family(0x2), family(0x4), family(0x5), family(0x1)];
    let info = ManagedLogicalDevice::create_info(&physical, &families).unwrap();
    let device = ManagedLogicalDevice::create(&instance, &info, Ok(40)).unwrap();
    let slot = device.get_graphics_queue();
    assert_eq!(slot, QueueSlot { family_index: 2, queue_index: 0 });
    assert_eq!(families[slot.family_index as usize].queue_flags & 0x1, 0x1);
}

#[test]
fn new_keeps_what_it_is_given() {
    let instance = ManagedInstance::new(Ok(1)).unwrap();
    let device = ManagedLogicalDevice::new(&instance, 9, 40, vec![3, 0]);
    assert_eq!(device.get_raw(), 40);
    assert_eq!(device.physical_device(), 9);
    assert_eq!(device.get_graphics_queue(), QueueSlot { family_index: 3, queue_index: 0 });
}

#[test]
fn command_pool_is_for_the_graphics_family() {
    let instance = ManagedInstance::new(Ok(1)).unwrap();
    let device = ManagedLogicalDevice::new(&instance, 9, 40, vec![3]);
    assert_eq!(device.command_pool_info(), CommandPoolCreateInfo { device: 40, queue_family_index: 3 });
    let pool = device.create_command_pool(Ok(50)).unwrap();
    assert_eq!(pool.get_raw(), 50);
    let r = device.create_command_pool(Err(-1));
    assert_eq!(r.err(), Some(Error::DriverCallFailed { call: DriverCall::CreateCommandPool, code: -1 }));
}

#[test]
fn image_infos_follow_the_kind() {
    let instance = ManagedInstance::new(Ok(1)).unwrap();
    let device = ManagedLogicalDevice::new(&instance, 9, 40, vec![0]);
    assert_eq!(
        device.optimized_image_info(500, 300),
        ImageCreateInfo { device: 40, tiling: 0, usage: 0x10, width: 500, height: 300 }
    );
    assert_eq!(
        device.linear_image_info(500, 300),
        ImageCreateInfo { device: 40, tiling: 1, usage: 0x2, width: 500, height: 300 }
    );
}

#[test]
fn images_report_the_driver_failure() {
    let instance = ManagedInstance::new(Ok(1)).unwrap();
    let device = ManagedLogicalDevice::new(&instance, 9, 40, vec![0]);
    let r = device.create_optimized_image(4, 4, Err(-2));
    assert_eq!(r.err(), Some(Error::DriverCallFailed { call: DriverCall::CreateImage, code: -2 }));
    let r = device.create_linear_image(4, 4, Err(-2));
    assert_eq!(r.err(), Some(Error::DriverCallFailed { call: DriverCall::CreateImage, code: -2 }));
}

#[test]
fn render_pass_has_one_attachment_and_one_subpass() {
    let instance = ManagedInstance::new(Ok(1)).unwrap();
    let device = ManagedLogicalDevice::new(&instance, 9, 40, vec![0]);
    assert_eq!(
        device.render_pass_info(),
        RenderPassCreateInfo { device: 40, color_attachment_count: 1, subpass_count: 1, subpass_color_attachment: 0 }
    );
    assert_eq!(device.create_render_pass(Ok(60)).unwrap().get_raw(), 60);
    let r = device.create_render_pass(Err(-7));
    assert_eq!(r.err(), Some(Error::DriverCallFailed { call: DriverCall::CreateRenderPass, code: -7 }));
}

#[test]
fn framebuffer_binds_the_image_to_the_render_pass() {
    let instance = ManagedInstance::new(Ok(1)).unwrap();
    let device = ManagedLogicalDevice::new(&instance, 9, 40, vec![0]);
    let render_pass = device.create_render_pass(Ok(60)).unwrap();
    let types = vec![game::memory::MemoryType { property_flags: 0x1, heap_index: 0 }];
    let requirements = game::memory::MemoryRequirements { size: 64, alignment: 16, memory_type_bits: 0x1 };
    let image = device
        .create_optimized_image(8, 6, Ok(70))
        .unwrap()
        .select_memory(&requirements, &types)
        .unwrap()
        .allocated(Ok(71))
        .unwrap()
        .bound(Ok(()))
        .unwrap();
    assert_eq!(
        device.image_view_info(&image),
        ImageViewCreateInfo { device: 40, image: 70, level_count: 1, layer_count: 1 }
    );
    let attachment = device.create_framebuffer(&render_pass, &image, 8, 6, Ok(79)).unwrap();
    assert_eq!(
        attachment.info(),
        FramebufferCreateInfo { device: 40, render_pass: 60, attachment: 79, width: 8, height: 6, layers: 1 }
    );
    let framebuffer = attachment.created(Ok(80)).unwrap();
    assert_eq!(framebuffer.get_raw(), 80);
    assert_eq!(framebuffer.get_view(), 79);
    assert_eq!(
        framebuffer.teardown(),
        vec![
            NativeCall::DestroyFramebuffer { device: 40, framebuffer: 80 },
            NativeCall::DestroyImageView { device: 40, view: 79 },
        ]
    );
}

#[test]
fn failed_view_is_reported() {
    let instance = ManagedInstance::new(Ok(1)).unwrap();
    let device = ManagedLogicalDevice::new(&instance, 9, 40, vec![0]);
    let render_pass = device.create_render_pass(Ok(60)).unwrap();
    let types = vec![game::memory::MemoryType { property_flags: 0x1, heap_index: 0 }];
    let requirements = game::memory::MemoryRequirements { size: 64, alignment: 16, memory_type_bits: 0x1 };
    let image = device
        .create_optimized_image(8, 6, Ok(70))
        .unwrap()
        .select_memory(&requirements, &types)
        .unwrap()
        .allocated(Ok(71))
        .unwrap()
        .bound(Ok(()))
        .unwrap();
    let r = device.create_framebuffer(&render_pass, &image, 8, 6, Err(-5));
    assert_eq!(r.err(), Some(Error::DriverCallFailed { call: DriverCall::CreateImageView, code: -5 }));
}

#[test]
fn failed_framebuffer_destroys_the_view() {
    let instance = ManagedInstance::new(Ok(1)).unwrap();
    let device = ManagedLogicalDevice::new(&instance, 9, 40, vec![0]);
    let render_pass = device.create_render_pass(Ok(60)).unwrap();
    let types = vec![game::memory::MemoryType { property_flags: 0x1, heap_index: 0 }];
    let requirements = game::memory::MemoryRequirements { size: 64, alignment: 16, memory_type_bits: 0x1 };
    let image = device
        .create_optimized_image(8, 6, Ok(70))
        .unwrap()
        .select_memory(&requirements, &types)
        .unwrap()
        .allocated(Ok(71))
        .unwrap()
        .bound(Ok(()))
        .unwrap();
    let failure = device.create_framebuffer(&render_pass, &image, 8, 6, Ok(79)).unwrap().created(Err(-2)).unwrap_err();
    assert_eq!(failure.error, Error::DriverCallFailed { call: DriverCall::CreateFramebuffer, code: -2 });
    assert_eq!(failure.cleanup, vec![NativeCall::DestroyImageView { device: 40, view: 79 }]);
}

#[test]
fn device_teardown_destroys_the_device() {
    let instance = ManagedInstance::new(Ok(1)).unwrap();
    let device = ManagedLogicalDevice::new(&instance, 9, 40, vec![0]);
    assert_eq!(device.teardown(), NativeCall::DestroyDevice { device: 40 });
}
