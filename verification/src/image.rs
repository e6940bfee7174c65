//! Images and the memory that backs them: the optimized kind that is rendered to, and the
//! linear kind that the host reads back.
use vstd::prelude::*;
use crate::error::{handle_or_error, reply_outcome, DriverCall, Error, Failure};
use crate::flags::{
    MEMORY_DEVICE_LOCAL,
    MEMORY_HOST_COHERENT,
    MEMORY_HOST_VISIBLE,
    TILING_LINEAR,
    TILING_OPTIMAL,
    USAGE_COLOR_ATTACHMENT,
    USAGE_TRANSFER_DST,
};
use crate::logical_device::{LogicalDeviceModel, ManagedLogicalDevice};
use crate::memory::{
    find_memory_type,
    first_suitable,
    none_suitable,
    MemoryAllocateInfo,
    MemoryRequirements,
    MemoryType,
};
use crate::native::NativeCall;

verus! {

/// What the driver is asked for when an image is created.
#[derive(Clone, Copy, Debug, PartialEq, Eq, Structural)]
pub struct ImageCreateInfo {
    pub device: u64,
    pub tiling: i32,
    pub usage: u32,
    pub width: u32,
    pub height: u32,
}

/// What the driver is asked for when memory is bound to an image.
#[derive(Clone, Copy, Debug, PartialEq, Eq, Structural)]
pub struct BindImageMemoryInfo {
    pub device: u64,
    pub image: u64,
    pub memory: u64,
    pub offset: u64,
}

/// What an image stands for, at every stage. The memory and its type are those of the
/// stages that have them.
pub struct ImageModel {
    pub device: u64,
    pub physical_device: u64,
    pub raw: u64,
    pub width: u32,
    pub height: u32,
}

/// The tiling of each kind of image.
pub open spec fn tiling_of(linear: bool) -> i32 {
    if linear {
        TILING_LINEAR
    } else {
        TILING_OPTIMAL
    }
}

/// The usage of each kind of image: a linear one receives a transfer, an optimized one is
/// a colour attachment.
pub open spec fn usage_of(linear: bool) -> u32 {
    if linear {
        USAGE_TRANSFER_DST
    } else {
        USAGE_COLOR_ATTACHMENT
    }
}

/// The memory properties that each kind of image requires: a linear one memory that the
/// host sees and that is coherent, an optimized one memory local to the device.
pub open spec fn required_properties(linear: bool) -> u32 {
    if linear {
        MEMORY_HOST_VISIBLE | MEMORY_HOST_COHERENT
    } else {
        MEMORY_DEVICE_LOCAL
    }
}

/// The image to ask for.
pub open spec fn image_info(linear: bool, device: LogicalDeviceModel, width: u32, height: u32) -> ImageCreateInfo {
    ImageCreateInfo { device: device.raw, tiling: tiling_of(linear), usage: usage_of(linear), width, height }
}

/// The memory properties that an image of the kind requires.
pub fn required_memory_properties(linear: bool) -> (required: u32)
    ensures
        required == required_properties(linear),
        linear ==> required == 0x6,
        !linear ==> required == 0x1,
{
    assert(0x2u32 | 0x4u32 == 0x6u32) by (bit_vector);
    if linear {
        MEMORY_HOST_VISIBLE | MEMORY_HOST_COHERENT
    } else {
        MEMORY_DEVICE_LOCAL
    }
}

/// An image that the driver has created and that has no memory yet.
#[derive(Debug)]
pub struct UnboundImage<'a, const LINEAR: bool> {
    device: &'a ManagedLogicalDevice<'a>,
    raw: u64,
    width: u32,
    height: u32,
}

/// An image for which a memory type was chosen, and whose memory the driver is asked for.
#[derive(Debug)]
pub struct ImageAllocation<'a, const LINEAR: bool> {
    image: UnboundImage<'a, LINEAR>,
    size: u64,
    memory_type_index: u32,
}

/// An image whose memory was allocated, and is to be bound to it.
#[derive(Debug)]
pub struct ImageBinding<'a, const LINEAR: bool> {
    image: UnboundImage<'a, LINEAR>,
    memory: u64,
    memory_type_index: u32,
}

/// An image with its memory. The two are released together.
#[derive(Debug)]
pub struct ManagedImage<'a, const LINEAR: bool> {
    image: UnboundImage<'a, LINEAR>,
    memory: u64,
    memory_type_index: u32,
}

/// An image that is rendered to: optimal tiling, memory local to the device.
pub type ManagedAndOptimizedImage<'a> = ManagedImage<'a, false>;

/// An image that the host reads: linear tiling, memory that the host sees.
pub type ManagedAndLinearImage<'a> = ManagedImage<'a, true>;

impl<'a, const LINEAR: bool> View for UnboundImage<'a, LINEAR> {
    type V = ImageModel;

    closed spec fn view(&self) -> ImageModel {
        ImageModel {
            device: self.device@.raw,
            physical_device: self.device@.physical_device,
            raw: self.raw,
            width: self.width,
            height: self.height,
        }
    }
}

impl<'a, const LINEAR: bool> View for ImageAllocation<'a, LINEAR> {
    type V = ImageModel;

    closed spec fn view(&self) -> ImageModel {
        self.image@
    }
}

impl<'a, const LINEAR: bool> View for ImageBinding<'a, LINEAR> {
    type V = ImageModel;

    closed spec fn view(&self) -> ImageModel {
        self.image@
    }
}

impl<'a, const LINEAR: bool> View for ManagedImage<'a, LINEAR> {
    type V = ImageModel;

    closed spec fn view(&self) -> ImageModel {
        self.image@
    }
}

impl<'a, const LINEAR: bool> UnboundImage<'a, LINEAR> {
    /// `r` is what the creation of an image gives when the driver answers `created`.
    pub open spec fn created_as(
        device: LogicalDeviceModel,
        width: u32,
        height: u32,
        created: Result<u64, i32>,
        r: Result<Self, Error>,
    ) -> bool {
        match r {
            Ok(image) => created is Ok && image@ == (ImageModel {
                device: device.raw,
                physical_device: device.physical_device,
                raw: created->Ok_0,
                width,
                height,
            }),
            Err(e) => reply_outcome(DriverCall::CreateImage, created) == Err::<u64, Error>(e),
        }
    }

    /// The image to ask for: the tiling and the usage of the kind, and the size.
    pub fn create_info(device: &ManagedLogicalDevice<'a>, width: u32, height: u32) -> (info: ImageCreateInfo)
        ensures
            info == image_info(LINEAR, device@, width, height),
    {
        if LINEAR {
            ImageCreateInfo {
                device: device.get_raw(),
                tiling: TILING_LINEAR,
                usage: USAGE_TRANSFER_DST,
                width,
                height,
            }
        } else {
            ImageCreateInfo {
                device: device.get_raw(),
                tiling: TILING_OPTIMAL,
                usage: USAGE_COLOR_ATTACHMENT,
                width,
                height,
            }
        }
    }

    /// Wraps what the driver answered to the creation of the image.
    pub fn new(device: &'a ManagedLogicalDevice<'a>, width: u32, height: u32, created: Result<u64, i32>) -> (r:
        Result<Self, Error>)
        ensures
            Self::created_as(device@, width, height, created, r),
    {
        match handle_or_error(DriverCall::CreateImage, created) {
            Ok(raw) => Ok(UnboundImage { device, raw, width, height }),
            Err(e) => Err(e),
        }
    }

    pub fn get_raw(&self) -> (raw: u64)
        ensures
            raw == self@.raw,
    {
        self.raw
    }

    /// The physical device whose memory types the choice is made among.
    pub fn physical_device(&self) -> (raw: u64)
        ensures
            raw == self@.physical_device,
    {
        self.device.physical_device()
    }

    /// Chooses the memory type: the lowest-indexed one that the image's mask allows and
    /// that has the properties the kind requires. Where there is none, the image is to be
    /// destroyed, and no memory is asked for.
    pub fn select_memory(self, requirements: &MemoryRequirements, memory_types: &Vec<MemoryType>) -> (r: Result<
        ImageAllocation<'a, LINEAR>,
        Failure,
    >)
        ensures
            match r {
                Ok(allocation) => {
                    &&& allocation@ == self@
                    &&& allocation.size() == requirements.size
                    &&& first_suitable(
                        memory_types@,
                        requirements.memory_type_bits,
                        required_properties(LINEAR),
                        allocation.memory_type_index() as int,
                    )
                },
                Err(failure) => {
                    &&& none_suitable(memory_types@, requirements.memory_type_bits, required_properties(LINEAR))
                    &&& failure.error == Error::NoSuitableMemoryType
                    &&& failure.cleanup@ == seq![
                        NativeCall::DestroyImage { device: self@.device, image: self@.raw },
                    ]
                },
            },
    {
        let required = required_memory_properties(LINEAR);
        match find_memory_type(memory_types, requirements.memory_type_bits, required) {
            Some(memory_type_index) => Ok(
                ImageAllocation { image: self, size: requirements.size, memory_type_index },
            ),
            None => {
                let mut cleanup: Vec<NativeCall> = Vec::new();
                cleanup.push(NativeCall::DestroyImage { device: self.device.get_raw(), image: self.raw });
                Err(Failure { error: Error::NoSuitableMemoryType, cleanup })
            },
        }
    }
}

impl<'a, const LINEAR: bool> ImageAllocation<'a, LINEAR> {
    /// The size that is asked for.
    pub closed spec fn size(&self) -> u64 {
        self.size
    }

    /// The index of the memory type that was chosen.
    pub closed spec fn memory_type_index(&self) -> u32 {
        self.memory_type_index
    }

    /// The memory to ask for: the size the image requires, of the type that was chosen.
    pub fn info(&self) -> (info: MemoryAllocateInfo)
        ensures
            info == (MemoryAllocateInfo {
                device: self@.device,
                allocation_size: self.size(),
                memory_type_index: self.memory_type_index(),
            }),
    {
        MemoryAllocateInfo {
            device: self.image.device.get_raw(),
            allocation_size: self.size,
            memory_type_index: self.memory_type_index,
        }
    }

    /// Takes what the driver answered to the allocation. Where it failed, the image is to
    /// be destroyed.
    pub fn allocated(self, memory: Result<u64, i32>) -> (r: Result<ImageBinding<'a, LINEAR>, Failure>)
        ensures
            match r {
                Ok(binding) => {
                    &&& memory is Ok
                    &&& binding@ == self@
                    &&& binding.memory() == memory->Ok_0
                    &&& binding.memory_type_index() == self.memory_type_index()
                },
                Err(failure) => {
                    &&& memory is Err
                    &&& failure.error == (Error::DriverCallFailed {
                        call: DriverCall::AllocateMemory,
                        code: memory->Err_0,
                    })
                    &&& failure.cleanup@ == seq![
                        NativeCall::DestroyImage { device: self@.device, image: self@.raw },
                    ]
                },
            },
    {
        match memory {
            Ok(memory) => Ok(
                ImageBinding { image: self.image, memory, memory_type_index: self.memory_type_index },
            ),
            Err(code) => {
                let mut cleanup: Vec<NativeCall> = Vec::new();
                cleanup.push(
                    NativeCall::DestroyImage { device: self.image.device.get_raw(), image: self.image.raw },
                );
                Err(
                    Failure {
                        error: Error::DriverCallFailed { call: DriverCall::AllocateMemory, code },
                        cleanup,
                    },
                )
            },
        }
    }
}

/// The calls that release an image and its memory: the image first, then the memory.
pub open spec fn image_teardown(image: ImageModel, memory: u64) -> Seq<NativeCall> {
    seq![
        NativeCall::DestroyImage { device: image.device, image: image.raw },
        NativeCall::FreeMemory { device: image.device, memory },
    ]
}

impl<'a, const LINEAR: bool> ImageBinding<'a, LINEAR> {
    /// The memory that was allocated.
    pub closed spec fn memory(&self) -> u64 {
        self.memory
    }

    /// The index of the memory type that was chosen.
    pub closed spec fn memory_type_index(&self) -> u32 {
        self.memory_type_index
    }

    /// The binding to ask for: the memory, from its start, to the image.
    pub fn info(&self) -> (info: BindImageMemoryInfo)
        ensures
            info == (BindImageMemoryInfo {
                device: self@.device,
                image: self@.raw,
                memory: self.memory(),
                offset: 0,
            }),
    {
        BindImageMemoryInfo {
            device: self.image.device.get_raw(),
            image: self.image.raw,
            memory: self.memory,
            offset: 0,
        }
    }

    /// Takes what the driver answered to the binding. Where it failed, the image and the
    /// memory are to be released.
    pub fn bound(self, bound: Result<(), i32>) -> (r: Result<ManagedImage<'a, LINEAR>, Failure>)
        ensures
            match r {
                Ok(image) => {
                    &&& bound is Ok
                    &&& image@ == self@
                    &&& image.memory() == self.memory()
                    &&& image.memory_type() == self.memory_type_index()
                },
                Err(failure) => {
                    &&& bound is Err
                    &&& failure.error == (Error::DriverCallFailed {
                        call: DriverCall::BindImageMemory,
                        code: bound->Err_0,
                    })
                    &&& failure.cleanup@ == image_teardown(self@, self.memory())
                },
            },
    {
        match bound {
            Ok(_) => Ok(
                ManagedImage { image: self.image, memory: self.memory, memory_type_index: self.memory_type_index },
            ),
            Err(code) => {
                let mut cleanup: Vec<NativeCall> = Vec::new();
                let device = self.image.device.get_raw();
                cleanup.push(NativeCall::DestroyImage { device, image: self.image.raw });
                cleanup.push(NativeCall::FreeMemory { device, memory: self.memory });
                Err(
                    Failure {
                        error: Error::DriverCallFailed { call: DriverCall::BindImageMemory, code },
                        cleanup,
                    },
                )
            },
        }
    }
}

impl<'a, const LINEAR: bool> ManagedImage<'a, LINEAR> {
    /// The memory that backs the image.
    pub closed spec fn memory(&self) -> u64 {
        self.memory
    }

    /// The index of the memory type that backs the image.
    pub closed spec fn memory_type(&self) -> u32 {
        self.memory_type_index
    }

    pub fn get_raw(&self) -> (raw: u64)
        ensures
            raw == self@.raw,
    {
        self.image.raw
    }

    pub fn get_memory(&self) -> (memory: u64)
        ensures
            memory == self.memory(),
    {
        self.memory
    }

    pub fn memory_type_index(&self) -> (index: u32)
        ensures
            index == self.memory_type(),
    {
        self.memory_type_index
    }

    pub fn width(&self) -> (width: u32)
        ensures
            width == self@.width,
    {
        self.image.width
    }

    pub fn height(&self) -> (height: u32)
        ensures
            height == self@.height,
    {
        self.image.height
    }

    /// Gives the image up: the image and its memory are released together, the image
    /// first.
    pub fn teardown(self) -> (calls: Vec<NativeCall>)
        ensures
            calls@ == image_teardown(self@, self.memory()),
    {
        let mut calls: Vec<NativeCall> = Vec::new();
        let device = self.image.device.get_raw();
        calls.push(NativeCall::DestroyImage { device, image: self.image.raw });
        calls.push(NativeCall::FreeMemory { device, memory: self.memory });
        calls
    }
}

} // verus!
