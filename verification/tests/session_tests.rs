use kinect::capture::K4ACapture;
use kinect::config::{
    ColorResolution, DepthMode, DeviceConfiguration, Fps, ImageFormat, WiredSyncMode,
};
use kinect::session::K4ADevice;
use kinect::status::{NativeStatus, OpenError, ReleaseAction, TrackerError, WaitError, WaitStatus};

fn open_session() -> K4ADevice {
    K4ADevice::try_open(0, 1, Some(7)).expect("open event was a success")
}

fn fresh_capture(handle: u64) -> K4ACapture {
    K4ACapture { capture: handle, image: None, frame: None }
}

#[test]
fn open_with_zero_devices() {
    assert_eq!(K4ADevice::try_open(0, 0, None).err(), Some(OpenError::NoDevicesInstalled));
    // Enumeration is consulted first, whatever the open call would have said.
    assert_eq!(K4ADevice::try_open(3, 0, Some(7)).err(), Some(OpenError::NoDevicesInstalled));
}

#[test]
fn open_failure_is_reported() {
    assert_eq!(K4ADevice::try_open(0, 2, None).err(), Some(OpenError::OpenFailed));
}

#[test]
fn open_success_defaults() {
    let dev = open_session();
    assert_eq!(dev.device_handle(), 7);
    assert_eq!(dev.tracker_handle(), None);
    assert_eq!(dev.capture_count(), 0);
    assert!(!dev.serial_cached());
}

#[test]
fn default_configuration_values() {
    let config = DeviceConfiguration::default();
    assert_eq!(config.camera_fps, Fps::Fps30);
    assert_eq!(config.color_format, ImageFormat::ColorMjpg);
    assert_eq!(config.color_resolution, ColorResolution::Off);
    assert_eq!(config.depth_delay_off_color_usec, 0);
    assert_eq!(config.depth_mode, DepthMode::WfovBinned);
    assert!(!config.disable_streaming_indicator);
    assert_eq!(config.subordinate_delay_off_master_usec, 0);
    assert!(!config.synchronized_images_only);
    assert_eq!(config.wired_sync_mode, WiredSyncMode::Standalone);
}

#[test]
fn set_config_takes_effect_on_next_start() {
    let mut dev = open_session();
    let mut config = DeviceConfiguration::default();
    config.camera_fps = Fps::Fps15;
    config.depth_mode = DepthMode::NfovUnbinned;
    dev.set_config(config);
    assert_eq!(dev.start_capture(), config);
}

#[test]
fn new_session_has_tracker_started() {
    let dev = K4ADevice::new(2, Some(11), NativeStatus::Succeeded, Some(21));
    assert_eq!(dev.device_handle(), 11);
    assert_eq!(dev.tracker_handle(), Some(21));
    assert_eq!(dev.capture_count(), 0);
}

#[test]
fn acquire_with_indefinite_wait_succeeds() {
    let dev = open_session();
    let cap = dev.get_capture(-1, WaitStatus::Succeeded, 42).expect("wait event was a success");
    assert_eq!(cap.capture_handle(), 42);
    assert!(!cap.has_image());
    assert!(!cap.has_frame());
}

#[test]
fn acquire_timeout_is_prompt_and_clean() {
    let mut dev = open_session();
    let r = dev.get_capture(0, WaitStatus::Timeout, 0);
    assert_eq!(r.err(), Some(WaitError::WaitTimeout));
    // A timed-out wait allocates nothing: the queue is untouched.
    assert_eq!(dev.next_frame(WaitStatus::Timeout, 0).err(), Some(WaitError::WaitTimeout));
    assert_eq!(dev.capture_count(), 0);
}

#[test]
fn acquire_failure_is_reported() {
    let mut dev = open_session();
    assert_eq!(dev.next_frame(WaitStatus::Failed, 0).err(), Some(WaitError::WaitFailed));
    assert_eq!(dev.capture_count(), 0);
}

#[test]
fn captures_observed_in_fifo_order() {
    let mut dev = open_session();
    dev.next_frame(WaitStatus::Succeeded, 100).unwrap();
    dev.next_frame(WaitStatus::Succeeded, 101).unwrap();
    dev.next_frame(WaitStatus::Succeeded, 102).unwrap();
    assert_eq!(dev.capture_count(), 3);
    assert_eq!(dev.front_capture_handle(), 100);
    dev.drop_oldest_capture();
    assert_eq!(dev.front_capture_handle(), 101);
    dev.drop_oldest_capture();
    assert_eq!(dev.front_capture_handle(), 102);
}

#[test]
fn drop_oldest_reduces_length_by_one() {
    let mut dev = open_session();
    dev.next_frame(WaitStatus::Succeeded, 100).unwrap();
    dev.next_frame(WaitStatus::Succeeded, 101).unwrap();
    let raw: Vec<u8> = vec![1, 0, 2, 0];
    dev.attach_depth_image(50, 1, 2, 4, &raw);
    let trace = dev.drop_oldest_capture();
    assert_eq!(dev.capture_count(), 1);
    // The dropped capture is fully released: image first, then its handle.
    assert_eq!(
        trace,
        vec![ReleaseAction::ReleaseImage(50), ReleaseAction::ReleaseCapture(100)]
    );
    // The other capture is untouched.
    assert_eq!(dev.front_capture_handle(), 101);
    assert!(!dev.front_has_image());
}

#[test]
fn drop_oldest_on_empty_queue_is_noop() {
    let mut dev = open_session();
    let trace = dev.drop_oldest_capture();
    assert!(trace.is_empty());
    assert_eq!(dev.capture_count(), 0);
}

#[test]
fn start_tracker_calibration_failure_leaves_no_tracker() {
    let mut dev = open_session();
    let r = dev.start_tracker(NativeStatus::Failed, Some(9));
    assert_eq!(r.err(), Some(TrackerError::TrackerUninitializable));
    assert_eq!(dev.tracker_handle(), None);
}

#[test]
fn start_tracker_creation_failure_leaves_no_tracker() {
    let mut dev = open_session();
    let r = dev.start_tracker(NativeStatus::Succeeded, None);
    assert_eq!(r.err(), Some(TrackerError::TrackerUninitializable));
    assert_eq!(dev.tracker_handle(), None);
}

#[test]
fn start_tracker_is_guarded_against_repeats() {
    let mut dev = open_session();
    dev.start_tracker(NativeStatus::Succeeded, Some(9)).unwrap();
    assert_eq!(dev.tracker_handle(), Some(9));
    // A second start stores nothing new: at most one tracker per session.
    dev.start_tracker(NativeStatus::Succeeded, Some(10)).unwrap();
    assert_eq!(dev.tracker_handle(), Some(9));
}

#[test]
fn enqueue_before_start_tracking_is_refused() {
    let dev = open_session();
    let cap = fresh_capture(100);
    let r = dev.queue_capture_for_processing(&cap, -1, WaitStatus::Succeeded);
    assert_eq!(r.err(), Some(WaitError::TrackerNotInitialized));
}

#[test]
fn enqueue_after_start_tracking() {
    let mut dev = open_session();
    dev.start_tracker(NativeStatus::Succeeded, Some(9)).unwrap();
    let cap = fresh_capture(100);
    assert!(dev.queue_capture_for_processing(&cap, -1, WaitStatus::Succeeded).is_ok());
    assert_eq!(
        dev.queue_capture_for_processing(&cap, 0, WaitStatus::Timeout).err(),
        Some(WaitError::WaitTimeout)
    );
    assert_eq!(
        dev.queue_capture_for_processing(&cap, -1, WaitStatus::Failed).err(),
        Some(WaitError::WaitFailed)
    );
}

#[test]
fn fetch_tracking_result_attaches_frame() {
    let mut dev = open_session();
    dev.start_tracker(NativeStatus::Succeeded, Some(9)).unwrap();
    let mut cap = fresh_capture(100);
    assert!(!cap.has_frame());
    dev.fetch_tracking_result(&mut cap, -1, WaitStatus::Succeeded, 77).unwrap();
    assert!(cap.has_frame());
    assert_eq!(cap.capture_handle(), 100);
}

#[test]
fn fetch_tracking_result_before_start_is_refused() {
    let dev = open_session();
    let mut cap = fresh_capture(100);
    let r = dev.fetch_tracking_result(&mut cap, 0, WaitStatus::Timeout, 0);
    assert_eq!(r.err(), Some(WaitError::TrackerNotInitialized));
    assert!(!cap.has_frame());
}

#[test]
fn fetch_tracking_result_timeout_leaves_capture_alone() {
    let mut dev = open_session();
    dev.start_tracker(NativeStatus::Succeeded, Some(9)).unwrap();
    let mut cap = fresh_capture(100);
    assert_eq!(
        dev.fetch_tracking_result(&mut cap, 0, WaitStatus::Timeout, 0).err(),
        Some(WaitError::WaitTimeout)
    );
    assert!(!cap.has_frame());
}

#[test]
fn teardown_releases_tracker_then_device_then_captures() {
    let mut dev = K4ADevice::new(1, Some(7), NativeStatus::Succeeded, Some(9));
    dev.next_frame(WaitStatus::Succeeded, 100).unwrap();
    dev.next_frame(WaitStatus::Succeeded, 101).unwrap();
    let raw: Vec<u8> = vec![5, 0, 6, 0];
    dev.attach_depth_image(50, 1, 2, 4, &raw);
    let trace = dev.teardown();
    assert_eq!(
        trace,
        vec![
            ReleaseAction::TrackerShutdown(9),
            ReleaseAction::TrackerDestroy(9),
            ReleaseAction::StopCameras(7),
            ReleaseAction::CloseDevice(7),
            ReleaseAction::ReleaseImage(50),
            ReleaseAction::ReleaseCapture(100),
            ReleaseAction::ReleaseCapture(101),
        ]
    );
}

#[test]
fn teardown_without_tracker() {
    let dev = open_session();
    let trace = dev.teardown();
    assert_eq!(
        trace,
        vec![ReleaseAction::StopCameras(7), ReleaseAction::CloseDevice(7)]
    );
}

#[test]
fn capture_teardown_orders_subhandles_first() {
    let mut dev = open_session();
    dev.start_tracker(NativeStatus::Succeeded, Some(9)).unwrap();
    let mut cap = fresh_capture(100);
    dev.fetch_tracking_result(&mut cap, -1, WaitStatus::Succeeded, 60).unwrap();
    let trace = cap.teardown();
    assert_eq!(
        trace,
        vec![ReleaseAction::ReleaseFrame(60), ReleaseAction::ReleaseCapture(100)]
    );
}

#[test]
fn skeleton_surface_is_neutral() {
    let mut dev = open_session();
    dev.get_skeleton();
    let mut cap = fresh_capture(100);
    assert_eq!(dev.get_skeleton_result(&mut cap, -1), 0);
    assert!(!cap.has_frame());
}
