use ash::vk;
use swapchain_sync::device::{
    pick_physical, pick_queue_family, QueueFamily, DISCRETE_GPU, QUEUE_GRAPHICS,
};

#[test]
fn device_constants_are_those_of_the_graphics_api() {
    assert_eq!(DISCRETE_GPU, vk::PhysicalDeviceType::DISCRETE_GPU.as_raw());
    assert_eq!(QUEUE_GRAPHICS, vk::QueueFlags::GRAPHICS.as_raw());
}

#[test]
fn picks_the_first_discrete_gpu() {
    let integrated = vk::PhysicalDeviceType::INTEGRATED_GPU.as_raw();
    let discrete = vk::PhysicalDeviceType::DISCRETE_GPU.as_raw();
    let cpu = vk::PhysicalDeviceType::CPU.as_raw();
    assert_eq!(pick_physical(&vec![integrated, discrete, cpu, discrete]), Some(1));
    assert_eq!(pick_physical(&vec![discrete]), Some(0));
    assert_eq!(pick_physical(&vec![2, 2]), Some(0));
}

#[test]
fn picks_no_device_without_a_discrete_gpu() {
    assert_eq!(pick_physical(&vec![]), None);
    assert_eq!(pick_physical(&vec![0, 1, 3, 4, -2, 6]), None);
}

#[test]
fn picks_the_first_graphics_family() {
    let compute = vk::QueueFlags::COMPUTE.as_raw();
    let transfer = vk::QueueFlags::TRANSFER.as_raw();
    let graphics = vk::QueueFlags::GRAPHICS.as_raw();
    let picked = pick_queue_family(&vec![transfer, compute | transfer, graphics | compute, graphics]);
    assert_eq!(
        picked,
        Some(QueueFamily { index: 2, flags: graphics | compute, queues: vec![] })
    );
}

#[test]
fn picks_a_family_by_its_graphics_bit_alone() {
    assert_eq!(
        pick_queue_family(&vec![0, 2, 4, 6, 0xFFFF_FFFE, 7]),
        Some(QueueFamily { index: 5, flags: 7, queues: vec![] })
    );
    assert_eq!(
        pick_queue_family(&vec![u32::MAX]),
        Some(QueueFamily { index: 0, flags: u32::MAX, queues: vec![] })
    );
}

#[test]
fn picks_no_family_without_graphics() {
    assert_eq!(pick_queue_family(&vec![]), None);
    assert_eq!(pick_queue_family(&vec![2, 4, 8, 0]), None);
}
