use emergency_backup::config::{
    check_fields, field_checks, join_extensions, mode_from_lowercase, parse_mode, BackupConfig, BackupMode,
};
use emergency_backup::errors::Error;

fn config() -> BackupConfig {
    let mut c = BackupConfig::default();
    c.backup_source = String::from("/home/user/documents");
    c.backup_destination = String::from("/media/usb");
    c
}

fn strings(xs: &[&str]) -> Vec<String> {
    xs.iter().map(|s| s.to_string()).collect()
}

#[test]
fn default_config_values() {
    let c = BackupConfig::default();
    assert_eq!(c.millis_update_frequency, 200);
    assert_eq!(c.tracking_window_sec, 15);
    assert_eq!(c.tolerance, 5);
    assert_eq!(c.mode, "Folder");
    assert!(c.backup_source.is_empty());
    assert!(c.backup_destination.is_empty());
    assert!(!c.extension_only);
    assert!(c.extension_type.is_empty());
    assert!(!c.active);
    assert_eq!(c.installation_dir, None);
}

#[test]
fn mode_is_parsed_in_any_case() {
    assert_eq!(parse_mode(&String::from("Folder")), Some(BackupMode::Folder));
    assert_eq!(parse_mode(&String::from("FOLDER")), Some(BackupMode::Folder));
    assert_eq!(parse_mode(&String::from("File")), Some(BackupMode::File));
    assert_eq!(parse_mode(&String::from("fIlE")), Some(BackupMode::File));
    assert_eq!(parse_mode(&String::from("files")), None);
    assert_eq!(parse_mode(&String::new()), None);
    assert_eq!(mode_from_lowercase(&String::from("File")), None);
    assert_eq!(mode_from_lowercase(&String::from("file")), Some(BackupMode::File));
}

#[test]
fn extensions_are_joined_with_bars() {
    assert_eq!(join_extensions(&strings(&["txt", "pdf", "png"])), "txt|pdf|png");
    assert_eq!(join_extensions(&strings(&["txt"])), "txt");
    assert_eq!(join_extensions(&Vec::new()), "");
}

#[test]
fn file_mode_with_directory_source_is_refused() {
    let mut c = config();
    c.mode = String::from("File");
    assert_eq!(field_checks(c, true).unwrap_err(), Error::FolderProvidedFileRequiredError);
}

#[test]
fn folder_mode_with_file_source_is_refused() {
    let c = config();
    assert_eq!(field_checks(c, false).unwrap_err(), Error::FileProvidedFolderRequiredError);
}

#[test]
fn matching_mode_and_source_kind_pass() {
    let c = config();
    assert!(field_checks(c, true).is_ok());
    let mut c = config();
    c.mode = String::from("file");
    assert!(field_checks(c, false).is_ok());
}

#[test]
fn unknown_mode_is_not_checked_against_the_source() {
    let mut c = config();
    c.mode = String::from("archive");
    assert!(field_checks(c.clone(), true).is_ok());
    assert!(field_checks(c, false).is_ok());
}

#[test]
fn zero_interval_and_zero_window_are_refused() {
    let mut c = config();
    c.millis_update_frequency = 0;
    assert_eq!(field_checks(c, true).unwrap_err(), Error::MillisUpdateFrequencyError);
    let mut c = config();
    c.tracking_window_sec = 0;
    assert_eq!(field_checks(c, true).unwrap_err(), Error::ZeroTrackingWindowSecError);
}

#[test]
fn extension_list_format_is_checked() {
    let mut c = config();
    c.extension_only = true;
    c.extension_type = strings(&["txt", "pdf"]);
    assert!(field_checks(c.clone(), true).is_ok());
    c.extension_type = strings(&["t.xt"]);
    assert_eq!(field_checks(c.clone(), true).unwrap_err(), Error::ExtensionTypeFormatError);
    c.extension_type = strings(&["txt", "p df"]);
    assert_eq!(field_checks(c.clone(), true).unwrap_err(), Error::ExtensionTypeFormatError);
    c.extension_type = Vec::new();
    assert_eq!(field_checks(c.clone(), true).unwrap_err(), Error::ExtensionTypeFormatError);
    c.extension_only = false;
    c.extension_type = strings(&["t.xt"]);
    assert!(field_checks(c, true).is_ok());
}

#[test]
fn check_fields_orders_the_errors() {
    let mut c = config();
    c.extension_only = true;
    c.extension_type = Vec::new();
    assert_eq!(check_fields(c.clone(), true, true).unwrap_err(), Error::ExtensionTypeArrayEmptyError);
    assert_eq!(check_fields(c.clone(), true, false).unwrap_err(), Error::ExtensionTypeFormatError);
    c.millis_update_frequency = 0;
    assert_eq!(check_fields(c, true, false).unwrap_err(), Error::MillisUpdateFrequencyError);
}

#[test]
fn error_messages() {
    assert_eq!(Error::BackupModeNotRecognizedError.message(), "Invalid backup mode. Must be 'file' or 'folder'");
    assert_eq!(Error::ZeroTrackingWindowSecError.message(), "Mouse tracking window cannot be zero seconds");
}
