use arm_service::user_data::{csv_temp_file_name, is_stale, log_file_name, UserDataPaths};
use std::path::PathBuf;

fn test_paths() -> UserDataPaths {
    UserDataPaths {
        root: String::from("/test"),
        logs: String::from("/test/logs"),
        csv_data: String::from("/test/csv_data"),
        csv_temp: String::from("/test/csv_temp"),
        config: String::from("/test/config"),
    }
}

#[test]
fn test_csv_temp_file() {
    let paths = test_paths();

    let temp_file = paths.csv_temp_file("20250107_120000");
    assert_eq!(
        temp_file,
        String::from("/test/csv_temp/robot_data_20250107_120000.csv")
    );
    assert_eq!(
        PathBuf::from(temp_file),
        PathBuf::from("/test/csv_temp/robot_data_20250107_120000.csv")
    );
}

#[test]
fn test_log_file() {
    let paths = test_paths();
    let log = paths.log_file("2025_01_07");
    assert_eq!(PathBuf::from(log), PathBuf::from("/test/logs/2025_01_07.log"));
}

#[test]
fn test_file_names() {
    assert_eq!(csv_temp_file_name("20250107_120000"), "robot_data_20250107_120000.csv");
    assert_eq!(csv_temp_file_name(""), "robot_data_.csv");
    assert_eq!(log_file_name("2025_01_07"), "2025_01_07.log");
}

#[test]
fn test_directories_under_root() {
    let paths = UserDataPaths::new("/data/app");
    assert_eq!(paths.root, "/data/app");
    assert_eq!(PathBuf::from(&paths.logs), PathBuf::from("/data/app/logs"));
    assert_eq!(PathBuf::from(&paths.csv_data), PathBuf::from("/data/app/csv_data"));
    assert_eq!(PathBuf::from(&paths.csv_temp), PathBuf::from("/data/app/csv_temp"));
    assert_eq!(PathBuf::from(&paths.config), PathBuf::from("/data/app/config"));
    assert_ne!(paths.logs, paths.root);
}

#[test]
fn test_is_stale() {
    let day = 86400u64;
    assert!(is_stale(0, 8 * day, 7));
    assert!(!is_stale(day, 8 * day, 7));
    assert!(is_stale(day - 1, 8 * day, 7));
    assert!(!is_stale(0, 7 * day, 7));
    assert!(!is_stale(0, 10, 7));
    assert!(is_stale(4, 5, 0));
    assert!(!is_stale(5, 5, 0));
    assert!(!is_stale(0, u64::MAX, u32::MAX) || u32::MAX as u64 * day < u64::MAX);
}

#[test]
fn test_fresh_csv_temp_file() {
    let path = test_paths().fresh_csv_temp_file();
    let prefix = "/test/csv_temp/robot_data_";
    assert!(path.starts_with(prefix));
    assert!(path.ends_with(".csv"));
    let stamp: Vec<char> = path[prefix.len()..path.len() - 4].chars().collect();
    assert_eq!(stamp.len(), 15);
    assert_eq!(stamp[8], '_');
    assert_eq!(stamp.iter().filter(|c| c.is_ascii_digit()).count(), 14);
}
