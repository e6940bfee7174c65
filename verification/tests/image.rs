use game::image::{required_memory_properties, BindImageMemoryInfo};
use game::memory::{MemoryAllocateInfo, MemoryRequirements, MemoryType};
use game::{DriverCall, Error, ManagedInstance, ManagedLogicalDevice, NativeCall};

fn memory_type(property_flags: u32) -> MemoryType {
    MemoryType { property_flags, heap_index: 0 }
}

fn requirements(size: u64, memory_type_bits: u32) -> MemoryRequirements {
    MemoryRequirements { size, alignment: 256, memory_type_bits }
}

#[test]
fn required_properties_follow_the_kind() {
    assert_eq!(required_memory_properties(false), 0x1);
    assert_eq!(required_memory_properties(true), 0x6);
}

#[test]
fn optimized_image_takes_device_local_memory() {
    let instance = ManagedInstance::new(Ok(1)).unwrap();
    let device = ManagedLogicalDevice::new(&instance, 9, 40, vec![0]);
    let types = vec![memory_type(0x6), memory_type(0x1), memory_type(0x7)];
    let unbound = device.create_optimized_image(500, 300, Ok(70)).unwrap();
    assert_eq!(unbound.get_raw(), 70);
    assert_eq!(unbound.physical_device(), 9);
    let allocation = unbound.select_memory(&requirements(600_000, 0x7), &types).unwrap();
    assert_eq!(
        allocation.info(),
        MemoryAllocateInfo { device: 40, allocation_size: 600_000, memory_type_index: 1 }
    );
    let binding = allocation.allocated(Ok(71)).unwrap();
    assert_eq!(binding.info(), BindImageMemoryInfo { device: 40, image: 70, memory: 71, offset: 0 });
    let image = binding.bound(Ok(())).unwrap();
    assert_eq!(image.get_raw(), 70);
    assert_eq!(image.get_memory(), 71);
    assert_eq!(image.memory_type_index(), 1);
    assert_eq!(image.width(), 500);
    assert_eq!(image.height(), 300);
    assert_eq!(types[image.memory_type_index() as usize].property_flags & 0x1, 0x1);
}

#[test]
fn linear_image_takes_host_visible_coherent_memory() {
    let instance = ManagedInstance::new(Ok(1)).unwrap();
    let device = ManagedLogicalDevice::new(&instance, 9, 40, vec![0]);
    let types = vec![memory_type(0x1), memory_type(0x2), memory_type(0x4), memory_type(0xe), memory_type(0x6)];
    let allocation = device
        .create_linear_image(16, 16, Ok(70))
        .unwrap()
        .select_memory(&requirements(1024, 0x1f), &types)
        .unwrap();
    assert_eq!(allocation.info().memory_type_index, 3);
    let allocation = device
        .create_linear_image(16, 16, Ok(70))
        .unwrap()
        .select_memory(&requirements(1024, 0x17), &types)
        .unwrap();
    assert_eq!(allocation.info().memory_type_index, 4);
}

#[test]
fn no_suitable_memory_type_destroys_the_image() {
    let instance = ManagedInstance::new(Ok(1)).unwrap();
    let device = ManagedLogicalDevice::new(&instance, 9, 40, vec![0]);
    let types = vec![memory_type(0x6), memory_type(0x1)];
    let failure = device
        .create_optimized_image(4, 4, Ok(70))
        .unwrap()
        .select_memory(&requirements(64, 0x1), &types)
        .unwrap_err();
    assert_eq!(failure.error, Error::NoSuitableMemoryType);
    assert_eq!(failure.cleanup, vec![NativeCall::DestroyImage { device: 40, image: 70 }]);
    let failure = device
        .create_linear_image(4, 4, Ok(72))
        .unwrap()
        .select_memory(&requirements(64, 0x2), &types)
        .unwrap_err();
    assert_eq!(failure.error, Error::NoSuitableMemoryType);
    assert_eq!(failure.cleanup, vec![NativeCall::DestroyImage { device: 40, image: 72 }]);
}

#[test]
fn no_weaker_memory_is_taken() {
    let instance = ManagedInstance::new(Ok(1)).unwrap();
    let device = ManagedLogicalDevice::new(&instance, 9, 40, vec![0]);
    let types = vec![memory_type(0x2), memory_type(0x4)];
    let r = device.create_linear_image(4, 4, Ok(70)).unwrap().select_memory(&requirements(64, 0x3), &types);
    assert_eq!(r.unwrap_err().error, Error::NoSuitableMemoryType);
}

#[test]
fn failed_allocation_destroys_the_image() {
    let instance = ManagedInstance::new(Ok(1)).unwrap();
    let device = ManagedLogicalDevice::new(&instance, 9, 40, vec![0]);
    let types = vec![memory_type(0x1)];
    let failure = device
        .create_optimized_image(4, 4, Ok(70))
        .unwrap()
        .select_memory(&requirements(64, 0x1), &types)
        .unwrap()
        .allocated(Err(-2))
        .unwrap_err();
    assert_eq!(failure.error, Error::DriverCallFailed { call: DriverCall::AllocateMemory, code: -2 });
    assert_eq!(failure.cleanup, vec![NativeCall::DestroyImage { device: 40, image: 70 }]);
}

#[test]
fn failed_binding_releases_image_and_memory() {
    let instance = ManagedInstance::new(Ok(1)).unwrap();
    let device = ManagedLogicalDevice::new(&instance, 9, 40, vec![0]);
    let types = vec![memory_type(0x1)];
    let failure = device
        .create_optimized_image(4, 4, Ok(70))
        .unwrap()
        .select_memory(&requirements(64, 0x1), &types)
        .unwrap()
        .allocated(Ok(71))
        .unwrap()
        .bound(Err(-1))
        .unwrap_err();
    assert_eq!(failure.error, Error::DriverCallFailed { call: DriverCall::BindImageMemory, code: -1 });
    assert_eq!(
        failure.cleanup,
        vec![NativeCall::DestroyImage { device: 40, image: 70 }, NativeCall::FreeMemory { device: 40, memory: 71 }]
    );
}

#[test]
fn image_teardown_releases_the_image_then_the_memory() {
    let instance = ManagedInstance::new(Ok(1)).unwrap();
    let device = ManagedLogicalDevice::new(&instance, 9, 40, vec![0]);
    let types = vec![memory_type(0x7)];
    let image = device
        .create_linear_image(4, 4, Ok(70))
        .unwrap()
        .select_memory(&requirements(64, 0x1), &types)
        .unwrap()
        .allocated(Ok(71))
        .unwrap()
        .bound(Ok(()))
        .unwrap();
    assert_eq!(
        image.teardown(),
        vec![NativeCall::DestroyImage { device: 40, image: 70 }, NativeCall::FreeMemory { device: 40, memory: 71 }]
    );
}
