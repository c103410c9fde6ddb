use emergency_backup::config::{BackupMode, join_extensions};
use emergency_backup::errors::Error;
use emergency_backup::form::{get_config_from_ui, split_extensions};
use emergency_backup::settings::parse_extension_only;

#[test]
fn extension_text_is_split_on_bars() {
    assert_eq!(split_extensions("txt|pdf|png"), vec!["txt", "pdf", "png"]);
    assert_eq!(split_extensions("txt"), vec!["txt"]);
    assert_eq!(split_extensions(""), vec![""]);
    assert_eq!(split_extensions("a||b|"), vec!["a", "", "b", ""]);
    assert_eq!(split_extensions("é|ü"), vec!["é", "ü"]);
}

#[test]
fn split_then_join_gives_the_text_back() {
    for text in ["txt|pdf", "", "|", "a||b"] {
        assert_eq!(join_extensions(&split_extensions(text)), text);
    }
}

#[test]
fn form_values_become_a_config() {
    let c = get_config_from_ui(
        String::from("/src"),
        String::from("/dst"),
        250,
        20,
        7,
        true,
        "txt|md",
        String::from("Folder"),
        true,
    );
    assert_eq!(c.backup_source, "/src");
    assert_eq!(c.backup_destination, "/dst");
    assert_eq!(c.millis_update_frequency, 250);
    assert_eq!(c.tracking_window_sec, 20);
    assert_eq!(c.tolerance, 7);
    assert!(c.extension_only);
    assert_eq!(c.extension_type, vec!["txt", "md"]);
    assert_eq!(c.mode, "Folder");
    assert!(c.active);
    assert_eq!(c.installation_dir, None);
}

#[test]
fn extension_only_switch_accepts_true_and_false_only() {
    assert_eq!(parse_extension_only("true"), Ok(true));
    assert_eq!(parse_extension_only("false"), Ok(false));
    assert_eq!(parse_extension_only("True"), Err(Error::ExtensionOnlyValueError));
    assert_eq!(parse_extension_only(""), Err(Error::ExtensionOnlyValueError));
}

#[test]
fn mode_names() {
    assert_eq!(BackupMode::File.name(), "file");
    assert_eq!(BackupMode::Folder.name(), "folder");
}
