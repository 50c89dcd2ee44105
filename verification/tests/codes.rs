use ash::vk;
use swapchain_sync::codes::{
    after_teardown, classify, Failure, Fault, ERROR_OUT_OF_DATE, NOT_READY, TIMEOUT,
};

#[test]
fn codes_are_those_of_the_graphics_api() {
    assert_eq!(NOT_READY, vk::Result::NOT_READY.as_raw());
    assert_eq!(TIMEOUT, vk::Result::TIMEOUT.as_raw());
    assert_eq!(ERROR_OUT_OF_DATE, vk::Result::ERROR_OUT_OF_DATE_KHR.as_raw());
}

#[test]
fn out_of_date_is_recoverable() {
    assert_eq!(classify(-1000001004), Failure::OutOfDate);
    assert_eq!(classify(vk::Result::ERROR_OUT_OF_DATE_KHR.as_raw()), Failure::OutOfDate);
}

#[test]
fn codes_of_the_graphics_api_are_sorted_as_they_mean() {
    assert_eq!(classify(vk::Result::TIMEOUT.as_raw()), Failure::TimedOut);
    assert_eq!(classify(vk::Result::NOT_READY.as_raw()), Failure::TimedOut);
    assert_eq!(classify(vk::Result::ERROR_DEVICE_LOST.as_raw()), Failure::Fatal(-4));
    assert_eq!(
        classify(vk::Result::ERROR_SURFACE_LOST_KHR.as_raw()),
        Failure::Fatal(-1000000000)
    );
    assert_eq!(classify(vk::Result::ERROR_OUT_OF_HOST_MEMORY.as_raw()), Failure::Fatal(-1));
    assert_eq!(classify(vk::Result::ERROR_OUT_OF_DEVICE_MEMORY.as_raw()), Failure::Fatal(-2));
}

#[test]
fn timeout_and_not_ready_are_timeouts() {
    assert_eq!(classify(2), Failure::TimedOut);
    assert_eq!(classify(1), Failure::TimedOut);
}

#[test]
fn other_codes_are_fatal_and_passed_on() {
    assert_eq!(classify(-4), Failure::Fatal(-4));
    assert_eq!(classify(-1), Failure::Fatal(-1));
    assert_eq!(classify(-2), Failure::Fatal(-2));
    assert_eq!(classify(-1000000000), Failure::Fatal(-1000000000));
    assert_eq!(classify(0), Failure::Fatal(0));
    assert_eq!(classify(1000001003), Failure::Fatal(1000001003));
    assert_eq!(classify(i32::MIN), Failure::Fatal(i32::MIN));
    assert_eq!(classify(i32::MAX), Failure::Fatal(i32::MAX));
}

#[test]
fn a_teardown_that_drained_reports_nothing() {
    assert_eq!(after_teardown(None, Ok(())), None);
}

#[test]
fn a_drain_that_failed_is_reported_after_the_teardown() {
    assert_eq!(after_teardown(None, Err(-4)), Some(Fault::Device(-4)));
    assert_eq!(
        after_teardown(None, Err(vk::Result::ERROR_DEVICE_LOST.as_raw())),
        Some(Fault::Device(-4))
    );
    assert_eq!(after_teardown(None, Err(-1)), Some(Fault::Device(-1)));
    assert_eq!(after_teardown(None, Err(0)), Some(Fault::Device(0)));
}

#[test]
fn the_fault_that_led_to_a_teardown_is_the_one_reported() {
    assert_eq!(after_teardown(Some(Fault::Protocol), Ok(())), Some(Fault::Protocol));
    assert_eq!(after_teardown(Some(Fault::Device(-2)), Err(-4)), Some(Fault::Device(-2)));
    assert_eq!(after_teardown(Some(Fault::NoImages), Err(-4)), Some(Fault::NoImages));
}
