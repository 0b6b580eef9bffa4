use ash::vk;
use vulkanite::command::CommandBuffer;
use vulkanite::device::DeviceError;
use vulkanite::native;
use vulkanite::queue::Queue;
use vulkanite::sync::{BinarySemaphore, Fence};

#[test]
fn submission_combines_all_inputs() {
    let queue = Queue::new(1, 0, 0);
    let render = BinarySemaphore { handle: 31 };
    let present = BinarySemaphore { handle: 32 };
    let other = BinarySemaphore { handle: 33 };
    let fence = Fence { handle: 40 };
    let submission = queue.submit(
        vec![CommandBuffer { handle: 7 }, CommandBuffer { handle: 8 }],
        &[&render],
        &[&present, &other],
        Some(&fence),
    );
    assert_eq!(
        submission,
        native::SubmitInfo {
            command_buffers: vec![7, 8],
            wait_semaphores: vec![32, 33],
            wait_dst_stage_masks: vec![
                vk::PipelineStageFlags::ALL_COMMANDS.as_raw(),
                vk::PipelineStageFlags::ALL_COMMANDS.as_raw(),
            ],
            signal_semaphores: vec![31],
            fence: 40,
        }
    );
}

#[test]
fn submission_without_fence_names_the_null_handle() {
    let queue = Queue::new(1, 0, 0);
    let submission = queue.submit(vec![], &[], &[], None);
    assert_eq!(
        submission,
        native::SubmitInfo {
            command_buffers: vec![],
            wait_semaphores: vec![],
            wait_dst_stage_masks: vec![],
            signal_semaphores: vec![],
            fence: 0,
        }
    );
    assert_eq!(native::NULL_HANDLE, 0);
}

#[test]
fn fence_waits_in_nanoseconds() {
    let fence = Fence { handle: 40 };
    assert_eq!(
        fence.wait_reset(1000),
        native::WaitForFence { fence: 40, timeout: 1_000_000_000 }
    );
    assert_eq!(fence.wait_reset(0), native::WaitForFence { fence: 40, timeout: 0 });
    assert_eq!(
        fence.wait_reset(18_446_744_073_709),
        native::WaitForFence { fence: 40, timeout: 18_446_744_073_709_000_000 }
    );
    assert_eq!(
        fence.wait_reset(18_446_744_073_710),
        native::WaitForFence { fence: 40, timeout: u64::MAX }
    );
    assert_eq!(fence.wait_reset(u64::MAX).timeout, u64::MAX);
}

#[test]
fn signaled_fence_is_reset_and_timeout_is_an_error() {
    let fence = Fence { handle: 40 };
    assert!(matches!(fence.waited(Ok(())), Ok(native::ResetFence { fence: 40 })));
    assert!(matches!(
        fence.waited(Err(vk::Result::TIMEOUT)),
        Err(DeviceError::Other(vk::Result::TIMEOUT))
    ));
    assert!(matches!(
        fence.waited(Err(vk::Result::ERROR_DEVICE_LOST)),
        Err(DeviceError::Other(vk::Result::ERROR_DEVICE_LOST))
    ));
}
