use game_loop::backend::{failed, BackendError, BackendEvent, FeatureLevel};

const DEVICE_REMOVED: i32 = -2005270523;
const DEVICE_RESET: i32 = -2005270521;
const UNSPECIFIED_FAILURE: i32 = -2147467259;

#[test]
fn negative_status_is_a_failure() {
    assert!(failed(-1));
    assert!(failed(i32::MIN));
    assert!(failed(UNSPECIFIED_FAILURE));
    assert!(!failed(0));
    assert!(!failed(1));
    assert!(!failed(i32::MAX));
}

#[test]
fn status_of_a_lost_device_is_told_apart() {
    assert_eq!(
        BackendEvent::from_status(DEVICE_REMOVED, DEVICE_REMOVED, DEVICE_RESET),
        BackendEvent::Failed(BackendError::DeviceRemoved)
    );
    assert_eq!(
        BackendEvent::from_status(DEVICE_RESET, DEVICE_REMOVED, DEVICE_RESET),
        BackendEvent::Failed(BackendError::DeviceReset)
    );
}

#[test]
fn other_failure_is_neither_removed_nor_reset() {
    assert_eq!(
        BackendEvent::from_status(UNSPECIFIED_FAILURE, DEVICE_REMOVED, DEVICE_RESET),
        BackendEvent::Failed(BackendError::Other)
    );
    assert_eq!(
        BackendEvent::from_status(DEVICE_REMOVED + 1, DEVICE_REMOVED, DEVICE_RESET),
        BackendEvent::Failed(BackendError::Other)
    );
}

#[test]
fn status_that_is_no_failure_completes() {
    assert_eq!(
        BackendEvent::from_status(0, DEVICE_REMOVED, DEVICE_RESET),
        BackendEvent::Completed
    );
    assert_eq!(
        BackendEvent::from_status(1, DEVICE_REMOVED, DEVICE_RESET),
        BackendEvent::Completed
    );
}

#[test]
fn removed_and_reset_mean_a_lost_device() {
    assert!(BackendError::DeviceRemoved.device_lost());
    assert!(BackendError::DeviceReset.device_lost());
    assert!(!BackendError::Other.device_lost());
}

#[test]
fn device_is_asked_for_at_the_highest_tier_first() {
    assert_eq!(
        FeatureLevel::preference(),
        vec![
            FeatureLevel::Level11_1,
            FeatureLevel::Level11_0,
            FeatureLevel::Level10_1,
            FeatureLevel::Level10_0,
            FeatureLevel::Level9_3,
            FeatureLevel::Level9_2,
            FeatureLevel::Level9_1,
        ]
    );
}
