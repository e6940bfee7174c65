//! The render pass, and the one graphics pipeline that draws in it.
use vstd::prelude::*;
use crate::error::{handle_or_error, reply_outcome, DriverCall, Error, Failure};
use crate::logical_device::{LogicalDeviceModel, ManagedLogicalDevice};
use crate::native::NativeCall;

verus! {

/// What the driver is asked for when a render pass is created: one colour attachment, and
/// one subpass that refers to it.
#[derive(Clone, Copy, Debug, PartialEq, Eq, Structural)]
pub struct RenderPassCreateInfo {
    pub device: u64,
    pub color_attachment_count: u32,
    pub subpass_count: u32,
    /// The attachment that the subpass draws to.
    pub subpass_color_attachment: u32,
}

/// What the driver is asked for when a pipeline layout is created.
#[derive(Clone, Copy, Debug, PartialEq, Eq, Structural)]
pub struct PipelineLayoutCreateInfo {
    pub device: u64,
    pub set_layout_count: u32,
    pub push_constant_range_count: u32,
}

/// What the driver is asked for when the graphics pipeline is created: the vertex and the
/// fragment stage, in the render pass's one subpass, with viewport and scissor over the
/// given area.
#[derive(Clone, Copy, Debug, PartialEq, Eq, Structural)]
pub struct GraphicsPipelineCreateInfo {
    pub device: u64,
    pub layout: u64,
    pub render_pass: u64,
    pub subpass: u32,
    pub stage_count: u32,
    pub width: u32,
    pub height: u32,
}

/// What a render pass stands for.
pub struct RenderPassModel {
    pub device: u64,
    pub raw: u64,
}

/// What a pipeline stands for, and a pipeline layout that awaits its pipeline.
pub struct PipelineModel {
    pub device: u64,
    pub render_pass: u64,
    pub layout: u64,
    pub width: u32,
    pub height: u32,
}

/// A render pass. It borrows its device; its pipeline and its framebuffers borrow it.
#[derive(Debug)]
pub struct ManagedRenderPass<'a> {
    device: &'a ManagedLogicalDevice<'a>,
    raw: u64,
}

/// A pipeline layout whose pipeline the driver is asked for.
#[derive(Debug)]
pub struct PipelineLayout<'a> {
    render_pass: &'a ManagedRenderPass<'a>,
    raw: u64,
    width: u32,
    height: u32,
}

/// The graphics pipeline of a render pass, with its layout.
#[derive(Debug)]
pub struct ManagedPipeline<'a> {
    layout: PipelineLayout<'a>,
    raw: u64,
}

impl<'a> View for ManagedRenderPass<'a> {
    type V = RenderPassModel;

    closed spec fn view(&self) -> RenderPassModel {
        RenderPassModel { device: self.device@.raw, raw: self.raw }
    }
}

impl<'a> View for PipelineLayout<'a> {
    type V = PipelineModel;

    closed spec fn view(&self) -> PipelineModel {
        PipelineModel {
            device: self.render_pass@.device,
            render_pass: self.render_pass@.raw,
            layout: self.raw,
            width: self.width,
            height: self.height,
        }
    }
}

/// What a pipeline with its handle stands for.
pub struct BuiltPipelineModel {
    pub pipeline: PipelineModel,
    pub raw: u64,
}

impl<'a> View for ManagedPipeline<'a> {
    type V = BuiltPipelineModel;

    closed spec fn view(&self) -> BuiltPipelineModel {
        BuiltPipelineModel { pipeline: self.layout@, raw: self.raw }
    }
}

/// The calls that release a pipeline: the pipeline first, then its layout.
pub open spec fn pipeline_teardown(pipeline: BuiltPipelineModel) -> Seq<NativeCall> {
    seq![
        NativeCall::DestroyPipeline { device: pipeline.pipeline.device, pipeline: pipeline.raw },
        NativeCall::DestroyPipelineLayout { device: pipeline.pipeline.device, layout: pipeline.pipeline.layout },
    ]
}

impl<'a> ManagedRenderPass<'a> {
    /// The render pass to ask for.
    pub open spec fn info_for(device: LogicalDeviceModel) -> RenderPassCreateInfo {
        RenderPassCreateInfo {
            device: device.raw,
            color_attachment_count: 1,
            subpass_count: 1,
            subpass_color_attachment: 0,
        }
    }

    /// `r` is what the creation of a render pass gives when the driver answers `created`.
    pub open spec fn created_as(
        device: LogicalDeviceModel,
        created: Result<u64, i32>,
        r: Result<ManagedRenderPass<'a>, Error>,
    ) -> bool {
        match r {
            Ok(render_pass) => created is Ok && render_pass@ == (RenderPassModel {
                device: device.raw,
                raw: created->Ok_0,
            }),
            Err(e) => reply_outcome(DriverCall::CreateRenderPass, created) == Err::<u64, Error>(e),
        }
    }

    pub fn create_info(device: &ManagedLogicalDevice<'a>) -> (info: RenderPassCreateInfo)
        ensures
            info == Self::info_for(device@),
    {
        RenderPassCreateInfo {
            device: device.get_raw(),
            color_attachment_count: 1,
            subpass_count: 1,
            subpass_color_attachment: 0,
        }
    }

    /// Wraps what the driver answered to the creation of the render pass.
    pub fn new(device: &'a ManagedLogicalDevice<'a>, created: Result<u64, i32>) -> (r: Result<
        ManagedRenderPass<'a>,
        Error,
    >)
        ensures
            Self::created_as(device@, created, r),
    {
        match handle_or_error(DriverCall::CreateRenderPass, created) {
            Ok(raw) => Ok(ManagedRenderPass { device, raw }),
            Err(e) => Err(e),
        }
    }

    pub fn get_raw(&self) -> (raw: u64)
        ensures
            raw == self@.raw,
    {
        self.raw
    }

    /// The pipeline layout to ask for: no descriptor sets, no push constants.
    pub fn pipeline_layout_info(&self) -> (info: PipelineLayoutCreateInfo)
        ensures
            info == (PipelineLayoutCreateInfo {
                device: self@.device,
                set_layout_count: 0,
                push_constant_range_count: 0,
            }),
    {
        PipelineLayoutCreateInfo { device: self.device.get_raw(), set_layout_count: 0, push_constant_range_count: 0 }
    }

    /// Begins the graphics pipeline for an area: wraps what the driver answered to the
    /// creation of the pipeline layout. The pipeline itself follows.
    pub fn create_graphics_pipeline(&'a self, width: u32, height: u32, layout: Result<u64, i32>) -> (r: Result<
        PipelineLayout<'a>,
        Error,
    >)
        ensures
            match r {
                Ok(pending) => layout is Ok && pending@ == (PipelineModel {
                    device: self@.device,
                    render_pass: self@.raw,
                    layout: layout->Ok_0,
                    width,
                    height,
                }),
                Err(e) => reply_outcome(DriverCall::CreatePipelineLayout, layout) == Err::<u64, Error>(e),
            },
    {
        match handle_or_error(DriverCall::CreatePipelineLayout, layout) {
            Ok(raw) => Ok(PipelineLayout { render_pass: self, raw, width, height }),
            Err(e) => Err(e),
        }
    }

    /// Gives the render pass up. Its pipeline and its framebuffers have been given up
    /// before: they borrowed it.
    pub fn teardown(self) -> (call: NativeCall)
        ensures
            call == (NativeCall::DestroyRenderPass { device: self@.device, render_pass: self@.raw }),
    {
        NativeCall::DestroyRenderPass { device: self.device.get_raw(), render_pass: self.raw }
    }
}

impl<'a> PipelineLayout<'a> {
    /// The pipeline to ask for.
    pub fn info(&self) -> (info: GraphicsPipelineCreateInfo)
        ensures
            info == (GraphicsPipelineCreateInfo {
                device: self@.device,
                layout: self@.layout,
                render_pass: self@.render_pass,
                subpass: 0,
                stage_count: 2,
                width: self@.width,
                height: self@.height,
            }),
    {
        GraphicsPipelineCreateInfo {
            device: self.render_pass.device.get_raw(),
            layout: self.raw,
            render_pass: self.render_pass.raw,
            subpass: 0,
            stage_count: 2,
            width: self.width,
            height: self.height,
        }
    }

    /// Takes what the driver answered to the creation of the pipeline. Where it failed,
    /// the layout is to be destroyed.
    pub fn created(self, pipeline: Result<u64, i32>) -> (r: Result<ManagedPipeline<'a>, Failure>)
        ensures
            match r {
                Ok(built) => pipeline is Ok && built@ == (BuiltPipelineModel {
                    pipeline: self@,
                    raw: pipeline->Ok_0,
                }),
                Err(failure) => {
                    &&& pipeline is Err
                    &&& failure.error == (Error::DriverCallFailed {
                        call: DriverCall::CreateGraphicsPipelines,
                        code: pipeline->Err_0,
                    })
                    &&& failure.cleanup@ == seq![
                        NativeCall::DestroyPipelineLayout { device: self@.device, layout: self@.layout },
                    ]
                },
            },
    {
        match pipeline {
            Ok(raw) => Ok(ManagedPipeline { layout: self, raw }),
            Err(code) => {
                let mut cleanup: Vec<NativeCall> = Vec::new();
                cleanup.push(
                    NativeCall::DestroyPipelineLayout {
                        device: self.render_pass.device.get_raw(),
                        layout: self.raw,
                    },
                );
                Err(
                    Failure {
                        error: Error::DriverCallFailed { call: DriverCall::CreateGraphicsPipelines, code },
                        cleanup,
                    },
                )
            },
        }
    }
}

impl<'a> ManagedPipeline<'a> {
    pub fn get_raw(&self) -> (raw: u64)
        ensures
            raw == self@.raw,
    {
        self.raw
    }

    pub fn layout(&self) -> (layout: u64)
        ensures
            layout == self@.pipeline.layout,
    {
        self.layout.raw
    }

    /// Gives the pipeline up: the pipeline, then its layout, both before the render pass.
    pub fn teardown(self) -> (calls: Vec<NativeCall>)
        ensures
            calls@ == pipeline_teardown(self@),
    {
        let mut calls: Vec<NativeCall> = Vec::new();
        let device = self.layout.render_pass.device.get_raw();
        calls.push(NativeCall::DestroyPipeline { device, pipeline: self.raw });
        calls.push(NativeCall::DestroyPipelineLayout { device, layout: self.layout.raw });
        calls
    }
}

} // verus!
