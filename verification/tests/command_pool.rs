use game::command_pool::CommandBufferAllocateInfo;
use game::memory::{MemoryRequirements, MemoryType};
use game::{DriverCall, Error, ManagedInstance, ManagedLogicalDevice, NativeCall, Progress, Script};

fn triangle(width: u32, height: u32) -> Script {
    let instance = ManagedInstance::new(Ok(1)).unwrap();
    let device = ManagedLogicalDevice::new(&instance, 9, 40, vec![0]);
    let pool = device.create_command_pool(Ok(50)).unwrap();
    let buffer = pool.allocate_command_buffer(Ok(51)).unwrap();
    let render_pass = device.create_render_pass(Ok(60)).unwrap();
    let pipeline = render_pass.create_graphics_pipeline(width, height, Ok(61)).unwrap().created(Ok(62)).unwrap();
    let types = vec![MemoryType { property_flags: 0x1, heap_index: 0 }];
    let requirements = MemoryRequirements { size: 64, alignment: 16, memory_type_bits: 0x1 };
    let image = device
        .create_optimized_image(width, height, Ok(70))
        .unwrap()
        .select_memory(&requirements, &types)
        .unwrap()
        .allocated(Ok(71))
        .unwrap()
        .bound(Ok(()))
        .unwrap();
    let framebuffer =
        device.create_framebuffer(&render_pass, &image, width, height, Ok(79)).unwrap().created(Ok(80)).unwrap();
    buffer.draw_triangle(90, &render_pass, &framebuffer, &pipeline, width, height)
}

fn expected_calls(width: u32, height: u32) -> Vec<NativeCall> {
    vec![
        NativeCall::BeginCommandBuffer { command_buffer: 51 },
        NativeCall::CmdBeginRenderPass { command_buffer: 51, render_pass: 60, framebuffer: 80, width, height },
        NativeCall::CmdBindPipeline { command_buffer: 51, pipeline: 62 },
        NativeCall::CmdSetViewport { command_buffer: 51, width, height },
        NativeCall::CmdSetScissor { command_buffer: 51, width, height },
        NativeCall::CmdDraw { command_buffer: 51, vertex_count: 3, instance_count: 1, first_vertex: 0, first_instance: 0 },
        NativeCall::CmdEndRenderPass { command_buffer: 51 },
        NativeCall::EndCommandBuffer { command_buffer: 51 },
        NativeCall::QueueSubmit { queue: 90, command_buffer: 51 },
        NativeCall::DeviceWaitIdle { device: 40 },
    ]
}

#[test]
fn one_buffer_is_allocated_from_the_pool() {
    let instance = ManagedInstance::new(Ok(1)).unwrap();
    let device = ManagedLogicalDevice::new(&instance, 9, 40, vec![2]);
    let pool = device.create_command_pool(Ok(50)).unwrap();
    assert_eq!(
        pool.allocate_info(),
        CommandBufferAllocateInfo { device: 40, command_pool: 50, command_buffer_count: 1 }
    );
    assert_eq!(pool.allocate_command_buffer(Ok(51)).unwrap().get_raw(), 51);
    let r = pool.allocate_command_buffer(Err(-1));
    assert_eq!(r.err(), Some(Error::DriverCallFailed { call: DriverCall::AllocateCommandBuffers, code: -1 }));
    assert_eq!(pool.teardown(), NativeCall::DestroyCommandPool { device: 40, pool: 50 });
}

#[test]
fn draw_triangle_is_the_fixed_sequence() {
    let script = triangle(500, 300);
    assert_eq!(script.calls(), &expected_calls(500, 300));
    assert_eq!(script.next(), Progress::Call(NativeCall::BeginCommandBuffer { command_buffer: 51 }));
}

#[test]
fn draw_triangle_succeeds_after_the_wait() {
    let mut script = triangle(500, 300);
    let expected = expected_calls(500, 300);
    for call in expected {
        assert_eq!(script.next(), Progress::Call(call));
        script.reply(Ok(()));
    }
    assert_eq!(script.next(), Progress::Done);
    script.reply(Ok(()));
    assert_eq!(script.next(), Progress::Done);
}

#[test]
fn draw_triangle_is_not_done_before_the_wait() {
    let mut script = triangle(500, 300);
    for _ in 0..9 {
        script.reply(Ok(()));
    }
    assert_eq!(script.next(), Progress::Call(NativeCall::DeviceWaitIdle { device: 40 }));
}

#[test]
fn failed_begin_stops_the_draw() {
    let mut script = triangle(4, 4);
    script.reply(Err(-1));
    let failed = Progress::Failed(Error::DriverCallFailed { call: DriverCall::BeginCommandBuffer, code: -1 });
    assert_eq!(script.next(), failed);
    script.reply(Ok(()));
    assert_eq!(script.next(), failed);
    script.reply(Err(-2));
    assert_eq!(script.next(), failed);
}

#[test]
fn failed_end_submit_and_wait_are_reported() {
    let cases = [
        (7, DriverCall::EndCommandBuffer),
        (8, DriverCall::QueueSubmit),
        (9, DriverCall::DeviceWaitIdle),
    ];
    for (position, call) in cases {
        let mut script = triangle(4, 4);
        for _ in 0..position {
            script.reply(Ok(()));
        }
        script.reply(Err(-4));
        assert_eq!(script.next(), Progress::Failed(Error::DriverCallFailed { call, code: -4 }));
    }
}

#[test]
fn recording_calls_report_no_status() {
    let mut script = triangle(4, 4);
    script.reply(Ok(()));
    script.reply(Err(-1));
    assert_eq!(script.next(), Progress::Call(NativeCall::CmdBindPipeline { command_buffer: 51, pipeline: 62 }));
    assert_eq!(NativeCall::CmdDraw {
        command_buffer: 1,
        vertex_count: 3,
        instance_count: 1,
        first_vertex: 0,
        first_instance: 0
    }.status_call(), None);
    assert_eq!(NativeCall::QueueSubmit { queue: 1, command_buffer: 2 }.status_call(), Some(DriverCall::QueueSubmit));
    assert_eq!(NativeCall::DestroyInstance { instance: 1 }.status_call(), None);
}

#[test]
fn empty_script_is_done() {
    let mut script = Script::new(Vec::new());
    assert_eq!(script.next(), Progress::Done);
    script.reply(Err(-1));
    assert_eq!(script.next(), Progress::Done);
}
