use sweat_claim::test_data::{data, get_test_future_success, set_test_future_success};
use sweat_claim::time::ms_timestamp_to_seconds;

#[test]
fn test_data_storage() {
    let mut storage = data();
    let name = "test_future";
    assert!(get_test_future_success(&storage, name));
    set_test_future_success(&mut storage, name, false);
    assert!(!get_test_future_success(&storage, name));
    set_test_future_success(&mut storage, name, true);
    assert!(get_test_future_success(&storage, name));
}

#[test]
fn test_data_storage_keeps_names_apart() {
    let mut storage = data();
    set_test_future_success(&mut storage, "ext_burn", false);
    set_test_future_success(&mut storage, "ext_transfer", true);
    set_test_future_success(&mut storage, "ext_burn", false);
    assert!(!get_test_future_success(&storage, "ext_burn"));
    assert!(get_test_future_success(&storage, "ext_transfer"));
    assert!(get_test_future_success(&storage, "other"));
}

#[test]
fn convert_milliseconds_to_unix_timestamp_successfully() {
    let millis: u64 = 1_699_038_575_819;
    let timestamp = ms_timestamp_to_seconds(millis);

    assert_eq!(1_699_038_575, timestamp);
}

#[test]
fn convert_largest_convertible_milliseconds() {
    let millis: u64 = (u32::MAX as u64) * 1000 + 999;
    assert_eq!(u32::MAX, ms_timestamp_to_seconds(millis));
}
