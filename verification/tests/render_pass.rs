use game::render_pass::{GraphicsPipelineCreateInfo, PipelineLayoutCreateInfo};
use game::{DriverCall, Error, ManagedInstance, ManagedLogicalDevice, NativeCall};

#[test]
fn pipeline_layout_has_no_sets_and_no_push_constants() {
    let instance = ManagedInstance::new(Ok(1)).unwrap();
    let device = ManagedLogicalDevice::new(&instance, 9, 40, vec![0]);
    let render_pass = device.create_render_pass(Ok(60)).unwrap();
    assert_eq!(
        render_pass.pipeline_layout_info(),
        PipelineLayoutCreateInfo { device: 40, set_layout_count: 0, push_constant_range_count: 0 }
    );
}

#[test]
fn pipeline_is_created_for_the_area() {
    let instance = ManagedInstance::new(Ok(1)).unwrap();
    let device = ManagedLogicalDevice::new(&instance, 9, 40, vec![0]);
    let render_pass = device.create_render_pass(Ok(60)).unwrap();
    let layout = render_pass.create_graphics_pipeline(500, 300, Ok(61)).unwrap();
    assert_eq!(
        layout.info(),
        GraphicsPipelineCreateInfo {
            device: 40,
            layout: 61,
            render_pass: 60,
            subpass: 0,
            stage_count: 2,
            width: 500,
            height: 300,
        }
    );
    let pipeline = layout.created(Ok(62)).unwrap();
    assert_eq!(pipeline.get_raw(), 62);
    assert_eq!(pipeline.layout(), 61);
}

#[test]
fn failed_layout_is_reported() {
    let instance = ManagedInstance::new(Ok(1)).unwrap();
    let device = ManagedLogicalDevice::new(&instance, 9, 40, vec![0]);
    let render_pass = device.create_render_pass(Ok(60)).unwrap();
    let r = render_pass.create_graphics_pipeline(500, 300, Err(-1));
    assert_eq!(r.err(), Some(Error::DriverCallFailed { call: DriverCall::CreatePipelineLayout, code: -1 }));
}

#[test]
fn failed_pipeline_destroys_the_layout() {
    let instance = ManagedInstance::new(Ok(1)).unwrap();
    let device = ManagedLogicalDevice::new(&instance, 9, 40, vec![0]);
    let render_pass = device.create_render_pass(Ok(60)).unwrap();
    let failure = render_pass.create_graphics_pipeline(500, 300, Ok(61)).unwrap().created(Err(-13)).unwrap_err();
    assert_eq!(failure.error, Error::DriverCallFailed { call: DriverCall::CreateGraphicsPipelines, code: -13 });
    assert_eq!(failure.cleanup, vec![NativeCall::DestroyPipelineLayout { device: 40, layout: 61 }]);
}

#[test]
fn pipeline_and_layout_go_before_the_render_pass() {
    let instance = ManagedInstance::new(Ok(1)).unwrap();
    let device = ManagedLogicalDevice::new(&instance, 9, 40, vec![0]);
    let render_pass = device.create_render_pass(Ok(60)).unwrap();
    let pipeline = render_pass.create_graphics_pipeline(500, 300, Ok(61)).unwrap().created(Ok(62)).unwrap();
    let mut calls = pipeline.teardown();
    calls.push(render_pass.teardown());
    assert_eq!(
        calls,
        vec![
            NativeCall::DestroyPipeline { device: 40, pipeline: 62 },
            NativeCall::DestroyPipelineLayout { device: 40, layout: 61 },
            NativeCall::DestroyRenderPass { device: 40, render_pass: 60 },
        ]
    );
}
