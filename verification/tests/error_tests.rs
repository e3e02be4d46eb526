use mic_bridge::error::AppError;

#[test]
fn kind_labels_name_each_error_kind() {
    let cases = [
        (AppError::InvalidArgument("x".to_string()), "invalid argument"),
        (AppError::DeviceNotFound("x".to_string()), "device not found"),
        (AppError::Audio("x".to_string()), "audio"),
        (AppError::Config("x".to_string()), "config"),
        (AppError::Hotkey("x".to_string()), "hotkey"),
        (AppError::System("x".to_string()), "system"),
    ];
    for (e, label) in cases {
        assert_eq!(e.kind_label(), label);
    }
}

#[test]
fn detail_carries_the_message() {
    let e = AppError::Config("could not read the configuration file".to_string());
    assert_eq!(e.detail(), "could not read the configuration file");
}
