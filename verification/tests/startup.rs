use saladict::settings::StoredSetting;
use saladict::startup::{keep_running_on_exit_request, local_detection_at_start, proxy_at_start};

#[test]
fn proxy_needs_flag_and_host() {
    let host = StoredSetting::Text("127.0.0.1".to_string());
    assert!(proxy_at_start(&StoredSetting::Flag(true), &host));
    assert!(!proxy_at_start(&StoredSetting::Flag(false), &host));
    assert!(!proxy_at_start(&StoredSetting::Missing, &host));
    assert!(!proxy_at_start(&StoredSetting::Flag(true), &StoredSetting::Text(String::new())));
    assert!(!proxy_at_start(&StoredSetting::Flag(true), &StoredSetting::Missing));
    assert!(!proxy_at_start(&StoredSetting::Flag(false), &StoredSetting::Other));
}

#[test]
fn local_detection_only_for_local_engine() {
    assert!(local_detection_at_start(&StoredSetting::Text("local".to_string())));
    assert!(!local_detection_at_start(&StoredSetting::Text("google".to_string())));
    assert!(!local_detection_at_start(&StoredSetting::Missing));
}

#[test]
fn exit_kept_only_when_last_window_closes() {
    assert!(keep_running_on_exit_request(None));
    assert!(!keep_running_on_exit_request(Some(0)));
    assert!(!keep_running_on_exit_request(Some(1)));
}
