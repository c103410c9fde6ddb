use emergency_backup::config::BackupConfig;
use emergency_backup::errors::Error;
use emergency_backup::settings::{
    apply_settings_ui, check_and_get_settings, load_settings, read_or_create_config, set_destination,
    set_extension_only, set_extension_types, set_installation_dir, set_millis_update_time, set_mode, set_source,
    set_tolerance, set_tracker_off, set_tracker_on, set_tracking_window_sec,
};

fn stored() -> BackupConfig {
    let mut c = BackupConfig::default();
    c.backup_source = String::from("/home/user/documents");
    c.backup_destination = String::from("/media/usb");
    c.installation_dir = Some(String::from("/opt/emergency"));
    c
}

#[test]
fn missing_settings_file_gives_defaults() {
    let c = read_or_create_config(None).unwrap();
    assert_eq!(c.millis_update_frequency, 200);
    assert_eq!(c.mode, "Folder");
    let c = load_settings(None).unwrap();
    assert_eq!(c.tracking_window_sec, 15);
}

#[test]
fn unreadable_settings_are_a_load_error() {
    assert_eq!(read_or_create_config(Some(Err(Error::ParentPathError))).unwrap_err(), Error::ParentPathError);
    assert_eq!(load_settings(Some(Err(Error::ParentPathError))).unwrap_err(), Error::LoadSettingsError);
    assert_eq!(load_settings(Some(Ok(stored()))).unwrap().tolerance, 5);
}

#[test]
fn check_and_get_settings_requires_paths_and_installation_dir() {
    assert!(check_and_get_settings(Ok(stored())).is_ok());
    let mut c = stored();
    c.backup_source = String::new();
    assert_eq!(check_and_get_settings(Ok(c)).unwrap_err(), Error::BackupPathNotConfigured);
    let mut c = stored();
    c.backup_destination = String::new();
    assert_eq!(check_and_get_settings(Ok(c)).unwrap_err(), Error::BackupPathNotConfigured);
    let mut c = stored();
    c.installation_dir = None;
    assert_eq!(check_and_get_settings(Ok(c)).unwrap_err(), Error::InstallationDirectoryNotFound);
    assert_eq!(check_and_get_settings(Err(Error::LoadSettingsError)).unwrap_err(), Error::LoadSettingsError);
}

#[test]
fn tracker_flag_updates() {
    assert!(set_tracker_on(Ok(stored())).unwrap().active);
    let mut c = stored();
    c.active = true;
    assert!(!set_tracker_off(Ok(c)).unwrap().active);
    assert_eq!(set_tracker_on(Err(Error::HomeDirectoryError)).unwrap_err(), Error::LoadSettingsError);
    assert_eq!(set_tracker_off(Err(Error::HomeDirectoryError)).unwrap_err(), Error::LoadSettingsError);
}

#[test]
fn numeric_updates() {
    assert_eq!(set_millis_update_time(Ok(stored()), 100).unwrap().millis_update_frequency, 100);
    assert_eq!(set_millis_update_time(Ok(stored()), 0).unwrap_err(), Error::MillisUpdateFrequencyError);
    assert_eq!(set_millis_update_time(Err(Error::LoadSettingsError), 0).unwrap_err(), Error::MillisUpdateFrequencyError);
    assert_eq!(set_tracking_window_sec(Ok(stored()), 30).unwrap().tracking_window_sec, 30);
    assert_eq!(set_tracking_window_sec(Ok(stored()), 0).unwrap_err(), Error::ZeroTrackingWindowSecError);
    assert_eq!(set_tolerance(Ok(stored()), 9).unwrap().tolerance, 9);
    assert_eq!(set_tolerance(Err(Error::LoadSettingsError), 9).unwrap_err(), Error::LoadSettingsError);
}

#[test]
fn text_updates() {
    assert_eq!(set_source(Ok(stored()), String::from("/data")).unwrap().backup_source, "/data");
    assert_eq!(set_destination(Ok(stored()), String::from("/backup")).unwrap().backup_destination, "/backup");
    assert_eq!(set_mode(Ok(stored()), String::from("file")).unwrap().mode, "file");
    assert!(set_extension_only(Ok(stored()), true).unwrap().extension_only);
    let types = vec![String::from("txt"), String::from("pdf")];
    assert_eq!(set_extension_types(Ok(stored()), types.clone()).unwrap().extension_type, types);
    assert_eq!(
        set_installation_dir(Ok(stored()), String::from("/usr/local")).unwrap().installation_dir,
        Some(String::from("/usr/local"))
    );
    assert_eq!(set_source(Err(Error::LoadSettingsError), String::from("/x")).unwrap_err(), Error::LoadSettingsError);
}

#[test]
fn settings_from_the_form_keep_the_installation_dir() {
    let mut from_ui = stored();
    from_ui.installation_dir = None;
    from_ui.tolerance = 8;
    let saved = apply_settings_ui(Ok(stored()), from_ui.clone(), true).unwrap();
    assert_eq!(saved.tolerance, 8);
    assert_eq!(saved.installation_dir, Some(String::from("/opt/emergency")));
    assert_eq!(
        apply_settings_ui(Ok(stored()), from_ui.clone(), false).unwrap_err(),
        Error::FileProvidedFolderRequiredError
    );
    assert_eq!(apply_settings_ui(Err(Error::HomeDirectoryError), from_ui, true).unwrap_err(), Error::LoadSettingsError);
}
