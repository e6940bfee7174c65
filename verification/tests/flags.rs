use game::flags::{
    has_flags,
    MEMORY_DEVICE_LOCAL,
    MEMORY_HOST_COHERENT,
    MEMORY_HOST_VISIBLE,
    QUEUE_GRAPHICS,
    TILING_LINEAR,
    TILING_OPTIMAL,
    USAGE_COLOR_ATTACHMENT,
    USAGE_TRANSFER_DST,
};

#[test]
fn bits_are_those_of_the_binding() {
    assert_eq!(QUEUE_GRAPHICS, ash::vk::QueueFlags::GRAPHICS.as_raw());
    assert_eq!(MEMORY_DEVICE_LOCAL, ash::vk::MemoryPropertyFlags::DEVICE_LOCAL.as_raw());
    assert_eq!(MEMORY_HOST_VISIBLE, ash::vk::MemoryPropertyFlags::HOST_VISIBLE.as_raw());
    assert_eq!(MEMORY_HOST_COHERENT, ash::vk::MemoryPropertyFlags::HOST_COHERENT.as_raw());
    assert_eq!(USAGE_TRANSFER_DST, ash::vk::ImageUsageFlags::TRANSFER_DST.as_raw());
    assert_eq!(USAGE_COLOR_ATTACHMENT, ash::vk::ImageUsageFlags::COLOR_ATTACHMENT.as_raw());
    assert_eq!(TILING_OPTIMAL, ash::vk::ImageTiling::OPTIMAL.as_raw());
    assert_eq!(TILING_LINEAR, ash::vk::ImageTiling::LINEAR.as_raw());
}

#[test]
fn has_flags_is_inclusion() {
    assert!(has_flags(0x7, 0x6));
    assert!(has_flags(0x6, 0x6));
    assert!(!has_flags(0x2, 0x6));
    assert!(!has_flags(0x4, 0x6));
    assert!(has_flags(0x0, 0x0));
    assert!(has_flags(0xffff_ffff, 0x8000_0001));
    assert!(!has_flags(0x7fff_ffff, 0x8000_0001));
}

#[test]
fn has_flags_agrees_with_the_binding() {
    let pairs = [(0x7u32, 0x6u32), (0x6, 0x6), (0x2, 0x6), (0x0, 0x1), (0x1f, 0x11), (0x0, 0x0)];
    for (flags, wanted) in pairs {
        let theirs = ash::vk::MemoryPropertyFlags::from_raw(flags)
            .contains(ash::vk::MemoryPropertyFlags::from_raw(wanted));
        assert_eq!(has_flags(flags, wanted), theirs);
    }
}
