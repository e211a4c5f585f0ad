use upload_img::error::StorageError;
use upload_img::storage::{get_appdata_path, get_config_path, get_history_path, AppPath, Platform};

fn path(base: &str, segments: &[&str]) -> AppPath {
    AppPath { base: base.to_string(), segments: segments.iter().map(|s| s.to_string()).collect() }
}

#[test]
fn the_base_variable_is_appdata_on_windows_and_home_elsewhere() {
    assert_eq!(Platform::MacOs.base_variable(), "HOME");
    assert_eq!(Platform::Windows.base_variable(), "APPDATA");
    assert_eq!(Platform::Linux.base_variable(), "HOME");
}

#[test]
fn the_data_directory_follows_the_platform() {
    assert_eq!(
        get_appdata_path(Platform::MacOs, Some("/Users/u".to_string())),
        Ok(path("/Users/u", &["Library", "Application Support", "com.upload-img.app"]))
    );
    assert_eq!(
        get_appdata_path(Platform::Windows, Some("C:\\Users\\u\\AppData\\Roaming".to_string())),
        Ok(path("C:\\Users\\u\\AppData\\Roaming", &["com.upload-img.app"]))
    );
    assert_eq!(
        get_appdata_path(Platform::Linux, Some("/home/u".to_string())),
        Ok(path("/home/u", &[".config", "com.upload-img.app"]))
    );
}

#[test]
fn a_missing_base_variable_is_an_environment_error() {
    assert_eq!(
        get_appdata_path(Platform::Linux, None),
        Err(StorageError::Environment { variable: "HOME".to_string() })
    );
    assert_eq!(
        get_appdata_path(Platform::MacOs, None),
        Err(StorageError::Environment { variable: "HOME".to_string() })
    );
    assert_eq!(
        get_config_path(Platform::Windows, None),
        Err(StorageError::Environment { variable: "APPDATA".to_string() })
    );
    assert_eq!(
        get_history_path(Platform::Linux, None),
        Err(StorageError::Environment { variable: "HOME".to_string() })
    );
}

#[test]
fn the_two_files_lie_in_the_data_directory() {
    assert_eq!(
        get_config_path(Platform::Linux, Some("/home/u".to_string())),
        Ok(path("/home/u", &[".config", "com.upload-img.app", "config.json"]))
    );
    assert_eq!(
        get_history_path(Platform::Linux, Some("/home/u".to_string())),
        Ok(path("/home/u", &[".config", "com.upload-img.app", "history.json"]))
    );
    assert_eq!(
        get_config_path(Platform::MacOs, Some("".to_string())),
        Ok(path("", &["Library", "Application Support", "com.upload-img.app", "config.json"]))
    );
    assert_eq!(
        get_history_path(Platform::Windows, Some("D:\\data".to_string())),
        Ok(path("D:\\data", &["com.upload-img.app", "history.json"]))
    );
}
