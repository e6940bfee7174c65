//! The framebuffer: the view of one image, bound to the attachment of one render pass.
use vstd::prelude::*;
use crate::error::{handle_or_error, reply_outcome, DriverCall, Error, Failure};
use crate::image::{ImageModel, ManagedAndOptimizedImage};
use crate::logical_device::{LogicalDeviceModel, ManagedLogicalDevice};
use crate::native::NativeCall;
use crate::render_pass::{ManagedRenderPass, RenderPassModel};

verus! {

/// What the driver is asked for when the view of an image is created: a view of the whole
/// image, as one colour image of two dimensions.
#[derive(Clone, Copy, Debug, PartialEq, Eq, Structural)]
pub struct ImageViewCreateInfo {
    pub device: u64,
    pub image: u64,
    pub level_count: u32,
    pub layer_count: u32,
}

/// What the driver is asked for when a framebuffer is created.
#[derive(Clone, Copy, Debug, PartialEq, Eq, Structural)]
pub struct FramebufferCreateInfo {
    pub device: u64,
    pub render_pass: u64,
    /// The view that fills the render pass's one attachment.
    pub attachment: u64,
    pub width: u32,
    pub height: u32,
    pub layers: u32,
}

/// What the view of an image stands for as long as its framebuffer is awaited.
pub struct AttachmentModel {
    pub device: u64,
    pub render_pass: u64,
    pub image: u64,
    pub view: u64,
    pub width: u32,
    pub height: u32,
}

/// What a framebuffer stands for.
pub struct FramebufferModel {
    pub attachment: AttachmentModel,
    pub raw: u64,
}

/// The view of an image whose framebuffer the driver is asked for.
#[derive(Debug)]
pub struct ImageAttachment<'a> {
    device: &'a ManagedLogicalDevice<'a>,
    render_pass: &'a ManagedRenderPass<'a>,
    image: &'a ManagedAndOptimizedImage<'a>,
    view: u64,
    width: u32,
    height: u32,
}

/// A framebuffer, with the view it binds. It borrows its device, its render pass and its
/// image, and so is given up before each of them.
#[derive(Debug)]
pub struct ManagedFramebuffer<'a> {
    attachment: ImageAttachment<'a>,
    raw: u64,
}

impl<'a> View for ImageAttachment<'a> {
    type V = AttachmentModel;

    closed spec fn view(&self) -> AttachmentModel {
        AttachmentModel {
            device: self.device@.raw,
            render_pass: self.render_pass@.raw,
            image: self.image@.raw,
            view: self.view,
            width: self.width,
            height: self.height,
        }
    }
}

impl<'a> View for ManagedFramebuffer<'a> {
    type V = FramebufferModel;

    closed spec fn view(&self) -> FramebufferModel {
        FramebufferModel { attachment: self.attachment@, raw: self.raw }
    }
}

/// The view to ask for.
pub open spec fn image_view_info(device: LogicalDeviceModel, image: ImageModel) -> ImageViewCreateInfo {
    ImageViewCreateInfo { device: device.raw, image: image.raw, level_count: 1, layer_count: 1 }
}

/// The framebuffer to ask for, once the view is there.
pub open spec fn framebuffer_info(attachment: AttachmentModel) -> FramebufferCreateInfo {
    FramebufferCreateInfo {
        device: attachment.device,
        render_pass: attachment.render_pass,
        attachment: attachment.view,
        width: attachment.width,
        height: attachment.height,
        layers: 1,
    }
}

/// The calls that release a framebuffer: the framebuffer first, then the view it binds.
pub open spec fn framebuffer_teardown(framebuffer: FramebufferModel) -> Seq<NativeCall> {
    seq![
        NativeCall::DestroyFramebuffer { device: framebuffer.attachment.device, framebuffer: framebuffer.raw },
        NativeCall::DestroyImageView { device: framebuffer.attachment.device, view: framebuffer.attachment.view },
    ]
}

impl<'a> ImageAttachment<'a> {
    /// `r` is what the creation of the view gives when the driver answers `created`.
    pub open spec fn created_as(
        device: LogicalDeviceModel,
        render_pass: RenderPassModel,
        image: ImageModel,
        width: u32,
        height: u32,
        created: Result<u64, i32>,
        r: Result<ImageAttachment<'a>, Error>,
    ) -> bool {
        match r {
            Ok(attachment) => created is Ok && attachment@ == (AttachmentModel {
                device: device.raw,
                render_pass: render_pass.raw,
                image: image.raw,
                view: created->Ok_0,
                width,
                height,
            }),
            Err(e) => reply_outcome(DriverCall::CreateImageView, created) == Err::<u64, Error>(e),
        }
    }

    pub fn create_info(device: &ManagedLogicalDevice<'a>, image: &ManagedAndOptimizedImage<'a>) -> (info:
        ImageViewCreateInfo)
        ensures
            info == image_view_info(device@, image@),
    {
        ImageViewCreateInfo { device: device.get_raw(), image: image.get_raw(), level_count: 1, layer_count: 1 }
    }

    /// Wraps what the driver answered to the creation of the view. The width and the height
    /// are those of the image: that they are is the caller's to see to.
    pub fn new(
        device: &'a ManagedLogicalDevice<'a>,
        render_pass: &'a ManagedRenderPass<'a>,
        image: &'a ManagedAndOptimizedImage<'a>,
        width: u32,
        height: u32,
        created: Result<u64, i32>,
    ) -> (r: Result<ImageAttachment<'a>, Error>)
        requires
            width == image@.width,
            height == image@.height,
        ensures
            Self::created_as(device@, render_pass@, image@, width, height, created, r),
    {
        match handle_or_error(DriverCall::CreateImageView, created) {
            Ok(view) => Ok(ImageAttachment { device, render_pass, image, view, width, height }),
            Err(e) => Err(e),
        }
    }

    /// The framebuffer to ask for: the view bound to the render pass's one attachment.
    pub fn info(&self) -> (info: FramebufferCreateInfo)
        ensures
            info == framebuffer_info(self@),
    {
        FramebufferCreateInfo {
            device: self.device.get_raw(),
            render_pass: self.render_pass.get_raw(),
            attachment: self.view,
            width: self.width,
            height: self.height,
            layers: 1,
        }
    }

    /// Takes what the driver answered to the creation of the framebuffer. Where it failed,
    /// the view is to be destroyed.
    pub fn created(self, framebuffer: Result<u64, i32>) -> (r: Result<ManagedFramebuffer<'a>, Failure>)
        ensures
            match r {
                Ok(built) => framebuffer is Ok && built@ == (FramebufferModel {
                    attachment: self@,
                    raw: framebuffer->Ok_0,
                }),
                Err(failure) => {
                    &&& framebuffer is Err
                    &&& failure.error == (Error::DriverCallFailed {
                        call: DriverCall::CreateFramebuffer,
                        code: framebuffer->Err_0,
                    })
                    &&& failure.cleanup@ == seq![
                        NativeCall::DestroyImageView { device: self@.device, view: self@.view },
                    ]
                },
            },
    {
        match framebuffer {
            Ok(raw) => Ok(ManagedFramebuffer { attachment: self, raw }),
            Err(code) => {
                let mut cleanup: Vec<NativeCall> = Vec::new();
                cleanup.push(NativeCall::DestroyImageView { device: self.device.get_raw(), view: self.view });
                Err(
                    Failure {
                        error: Error::DriverCallFailed { call: DriverCall::CreateFramebuffer, code },
                        cleanup,
                    },
                )
            },
        }
    }
}

impl<'a> ManagedFramebuffer<'a> {
    pub fn get_raw(&self) -> (raw: u64)
        ensures
            raw == self@.raw,
    {
        self.raw
    }

    /// The view that the framebuffer binds.
    pub fn get_view(&self) -> (view: u64)
        ensures
            view == self@.attachment.view,
    {
        self.attachment.view
    }

    /// Gives the framebuffer up: the framebuffer, then the view it binds.
    pub fn teardown(self) -> (calls: Vec<NativeCall>)
        ensures
            calls@ == framebuffer_teardown(self@),
    {
        let mut calls: Vec<NativeCall> = Vec::new();
        let device = self.attachment.device.get_raw();
        calls.push(NativeCall::DestroyFramebuffer { device, framebuffer: self.raw });
        calls.push(NativeCall::DestroyImageView { device, view: self.attachment.view });
        calls
    }
}

} // verus!
