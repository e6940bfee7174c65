//! Managed handles for the objects of a native graphics driver.
//!
//! The driver itself is reached by the caller. This crate decides what is asked of it,
//! wraps the handles it hands out, and states in which order they are released.
pub mod command_pool;
pub mod error;
pub mod flags;
pub mod framebuffer;
pub mod image;
pub mod instance;
pub mod lifetime;
pub mod logical_device;
pub mod memory;
pub mod native;
pub mod physical_device;
pub mod render_pass;
pub mod script;

pub use command_pool::{ManagedCommandBuffer, ManagedCommandPool};
pub use error::{DriverCall, Error, Failure};
pub use framebuffer::{ImageAttachment, ManagedFramebuffer};
pub use image::{ManagedAndLinearImage, ManagedAndOptimizedImage, ManagedImage};
pub use instance::{InstanceCreateInfo, ManagedInstance};
pub use logical_device::{DeviceCreateInfo, ManagedLogicalDevice, QueueSlot};
pub use native::NativeCall;
pub use physical_device::{ManagedPhysicalDevice, PhysicalDeviceProperties, QueueFamilyProperties};
pub use render_pass::{ManagedPipeline, ManagedRenderPass};
pub use script::{Progress, Script};

