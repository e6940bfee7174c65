//! Capability bits and enumerants of the native API, as plain integers.
use vstd::prelude::*;

verus! {

/// Queue capability: graphics operations.
pub const QUEUE_GRAPHICS: u32 = 0x1;

/// Memory property: local to the device.
pub const MEMORY_DEVICE_LOCAL: u32 = 0x1;

/// Memory property: mappable by the host.
pub const MEMORY_HOST_VISIBLE: u32 = 0x2;

/// Memory property: host writes are visible without a flush.
pub const MEMORY_HOST_COHERENT: u32 = 0x4;

/// Image tiling: opaque, chosen by the device.
pub const TILING_OPTIMAL: i32 = 0;

/// Image tiling: rows of texels in order.
pub const TILING_LINEAR: i32 = 1;

/// Image usage: destination of a transfer.
pub const USAGE_TRANSFER_DST: u32 = 0x2;

/// Image usage: colour attachment of a framebuffer.
pub const USAGE_COLOR_ATTACHMENT: u32 = 0x10;

/// Every bit of `wanted` is set in `flags`.
pub open spec fn includes(flags: u32, wanted: u32) -> bool {
    flags & wanted == wanted
}

/// `flags` has every bit of `wanted` and at least one more.
pub open spec fn strictly_includes(flags: u32, wanted: u32) -> bool {
    includes(flags, wanted) && flags != wanted
}

pub fn has_flags(flags: u32, wanted: u32) -> (r: bool)
    ensures
        r == includes(flags, wanted),
{
    flags & wanted == wanted
}

} // verus!
