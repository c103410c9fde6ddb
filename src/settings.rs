use vstd::prelude::*;
use crate::config::{BackupConfig, checked, is_default_config, extensions_well_formed, field_checks, field_error};
use crate::errors::Error;

verus! {

// Each update takes the settings as they were loaded and returns those to save; reading
// and writing the settings file is the caller's part.

/// The settings to use, given what the settings file held: `None` when there is no file
/// yet (the defaults are used, and must then be saved), or the outcome of reading it.
pub fn read_or_create_config(stored: Option<Result<BackupConfig, Error>>) -> (r: Result<BackupConfig, Error>)
    ensures
        match stored {
            None => r matches Ok(c) && is_default_config(c),
            Some(res) => r == res,
        },
{
    match stored {
        None => Ok(BackupConfig::default()),
        Some(res) => res,
    }
}

/// Loads the settings; any failure to read them is reported as `LoadSettingsError`.
pub fn load_settings(stored: Option<Result<BackupConfig, Error>>) -> (r: Result<BackupConfig, Error>)
    ensures
        match stored {
            Some(Err(_)) => r == Err::<BackupConfig, Error>(Error::LoadSettingsError),
            Some(Ok(c)) => r == Ok::<BackupConfig, Error>(c),
            None => r matches Ok(c) && is_default_config(c),
        },
{
    match read_or_create_config(stored) {
        Ok(c) => Ok(c),
        Err(_) => Err(Error::LoadSettingsError),
    }
}

/// The loaded settings, if they name a source, a destination and an installation directory.
pub fn check_and_get_settings(loaded: Result<BackupConfig, Error>) -> (r: Result<BackupConfig, Error>)
    ensures
        match loaded {
            Err(e) => r == Err::<BackupConfig, Error>(e),
            Ok(s) => if s.backup_source@.len() == 0 || s.backup_destination@.len() == 0 {
                r == Err::<BackupConfig, Error>(Error::BackupPathNotConfigured)
            } else if s.installation_dir is None {
                r == Err::<BackupConfig, Error>(Error::InstallationDirectoryNotFound)
            } else {
                r == Ok::<BackupConfig, Error>(s)
            },
        },
{
    match loaded {
        Err(e) => Err(e),
        Ok(s) => {
            if s.backup_source.as_str().is_empty() || s.backup_destination.as_str().is_empty() {
                Err(Error::BackupPathNotConfigured)
            } else if s.installation_dir.is_none() {
                Err(Error::InstallationDirectoryNotFound)
            } else {
                Ok(s)
            }
        },
    }
}

pub fn set_tracker_on(loaded: Result<BackupConfig, Error>) -> (r: Result<BackupConfig, Error>)
    ensures
        match loaded {
            Err(_) => r == Err::<BackupConfig, Error>(Error::LoadSettingsError),
            Ok(c) => r == Ok::<BackupConfig, Error>(BackupConfig { active: true, ..c }),
        },
{
    match loaded {
        Err(_) => Err(Error::LoadSettingsError),
        Ok(c) => {
            let mut c = c;
            c.active = true;
            Ok(c)
        },
    }
}

pub fn set_tracker_off(loaded: Result<BackupConfig, Error>) -> (r: Result<BackupConfig, Error>)
    ensures
        match loaded {
            Err(_) => r == Err::<BackupConfig, Error>(Error::LoadSettingsError),
            Ok(c) => r == Ok::<BackupConfig, Error>(BackupConfig { active: false, ..c }),
        },
{
    match loaded {
        Err(_) => Err(Error::LoadSettingsError),
        Ok(c) => {
            let mut c = c;
            c.active = false;
            Ok(c)
        },
    }
}

/// A zero interval is refused before the settings are looked at.
pub fn set_millis_update_time(loaded: Result<BackupConfig, Error>, time: usize) -> (r: Result<BackupConfig, Error>)
    ensures
        time == 0 ==> r == Err::<BackupConfig, Error>(Error::MillisUpdateFrequencyError),
        time > 0 ==> r == match loaded {
            Err(e) => Err::<BackupConfig, Error>(e),
            Ok(c) => Ok::<BackupConfig, Error>(BackupConfig { millis_update_frequency: time, ..c }),
        },
{
    if time == 0 {
        return Err(Error::MillisUpdateFrequencyError);
    }
    match loaded {
        Err(e) => Err(e),
        Ok(c) => {
            let mut c = c;
            c.millis_update_frequency = time;
            Ok(c)
        },
    }
}

pub fn set_tolerance(loaded: Result<BackupConfig, Error>, tolerance: u32) -> (r: Result<BackupConfig, Error>)
    ensures
        r == match loaded {
            Err(e) => Err::<BackupConfig, Error>(e),
            Ok(c) => Ok::<BackupConfig, Error>(BackupConfig { tolerance, ..c }),
        },
{
    match loaded {
        Err(e) => Err(e),
        Ok(c) => {
            let mut c = c;
            c.tolerance = tolerance;
            Ok(c)
        },
    }
}

/// `full_path` is the source path made absolute.
pub fn set_source(loaded: Result<BackupConfig, Error>, full_path: String) -> (r: Result<BackupConfig, Error>)
    ensures
        r == match loaded {
            Err(e) => Err::<BackupConfig, Error>(e),
            Ok(c) => Ok::<BackupConfig, Error>(BackupConfig { backup_source: full_path, ..c }),
        },
{
    match loaded {
        Err(e) => Err(e),
        Ok(c) => {
            let mut c = c;
            c.backup_source = full_path;
            Ok(c)
        },
    }
}

/// `full_path` is the destination path made absolute.
pub fn set_destination(loaded: Result<BackupConfig, Error>, full_path: String) -> (r: Result<BackupConfig, Error>)
    ensures
        r == match loaded {
            Err(e) => Err::<BackupConfig, Error>(e),
            Ok(c) => Ok::<BackupConfig, Error>(BackupConfig { backup_destination: full_path, ..c }),
        },
{
    match loaded {
        Err(e) => Err(e),
        Ok(c) => {
            let mut c = c;
            c.backup_destination = full_path;
            Ok(c)
        },
    }
}

pub fn set_extension_only(loaded: Result<BackupConfig, Error>, extension_only: bool) -> (r: Result<
    BackupConfig,
    Error,
>)
    ensures
        r == match loaded {
            Err(e) => Err::<BackupConfig, Error>(e),
            Ok(c) => Ok::<BackupConfig, Error>(BackupConfig { extension_only, ..c }),
        },
{
    match loaded {
        Err(e) => Err(e),
        Ok(c) => {
            let mut c = c;
            c.extension_only = extension_only;
            Ok(c)
        },
    }
}

/// The command-line value of the extension filter switch: exactly `true` or `false`.
pub fn parse_extension_only(value: &str) -> (r: Result<bool, Error>)
    ensures
        value@ == seq!['t', 'r', 'u', 'e'] ==> r == Ok::<bool, Error>(true),
        value@ == seq!['f', 'a', 'l', 's', 'e'] ==> r == Ok::<bool, Error>(false),
        value@ != seq!['t', 'r', 'u', 'e'] && value@ != seq!['f', 'a', 'l', 's', 'e'] ==> r == Err::<bool, Error>(
            Error::ExtensionOnlyValueError,
        ),
{
    let v = String::from_str(value);
    let yes = String::from_str("true");
    let no = String::from_str("false");
    proof {
        reveal_strlit("true");
        reveal_strlit("false");
        assert(yes@ =~= seq!['t', 'r', 'u', 'e']);
        assert(no@ =~= seq!['f', 'a', 'l', 's', 'e']);
    }
    if v == yes {
        Ok(true)
    } else if v == no {
        Ok(false)
    } else {
        Err(Error::ExtensionOnlyValueError)
    }
}

pub fn set_mode(loaded: Result<BackupConfig, Error>, mode: String) -> (r: Result<BackupConfig, Error>)
    ensures
        r == match loaded {
            Err(e) => Err::<BackupConfig, Error>(e),
            Ok(c) => Ok::<BackupConfig, Error>(BackupConfig { mode, ..c }),
        },
{
    match loaded {
        Err(e) => Err(e),
        Ok(c) => {
            let mut c = c;
            c.mode = mode;
            Ok(c)
        },
    }
}

/// A zero window is refused before the settings are looked at.
pub fn set_tracking_window_sec(loaded: Result<BackupConfig, Error>, secs: usize) -> (r: Result<BackupConfig, Error>)
    ensures
        secs == 0 ==> r == Err::<BackupConfig, Error>(Error::ZeroTrackingWindowSecError),
        secs > 0 ==> r == match loaded {
            Err(e) => Err::<BackupConfig, Error>(e),
            Ok(c) => Ok::<BackupConfig, Error>(BackupConfig { tracking_window_sec: secs, ..c }),
        },
{
    if secs == 0 {
        return Err(Error::ZeroTrackingWindowSecError);
    }
    match loaded {
        Err(e) => Err(e),
        Ok(c) => {
            let mut c = c;
            c.tracking_window_sec = secs;
            Ok(c)
        },
    }
}

pub fn set_extension_types(loaded: Result<BackupConfig, Error>, types: Vec<String>) -> (r: Result<
    BackupConfig,
    Error,
>)
    ensures
        r == match loaded {
            Err(e) => Err::<BackupConfig, Error>(e),
            Ok(c) => Ok::<BackupConfig, Error>(BackupConfig { extension_type: types, ..c }),
        },
{
    match loaded {
        Err(e) => Err(e),
        Ok(c) => {
            let mut c = c;
            c.extension_type = types;
            Ok(c)
        },
    }
}

pub fn set_installation_dir(loaded: Result<BackupConfig, Error>, path: String) -> (r: Result<BackupConfig, Error>)
    ensures
        r == match loaded {
            Err(e) => Err::<BackupConfig, Error>(e),
            Ok(c) => Ok::<BackupConfig, Error>(BackupConfig { installation_dir: Some(path), ..c }),
        },
{
    match loaded {
        Err(e) => Err(e),
        Ok(c) => {
            let mut c = c;
            c.installation_dir = Some(path);
            Ok(c)
        },
    }
}

/// The settings to save from the form: `from_ui` validated, keeping the stored
/// installation directory.
pub fn apply_settings_ui(stored: Result<BackupConfig, Error>, from_ui: BackupConfig, source_is_dir: bool) -> (r:
    Result<BackupConfig, Error>)
    ensures
        match stored {
            Err(_) => r == Err::<BackupConfig, Error>(Error::LoadSettingsError),
            Ok(s) => r == match checked(
                from_ui,
                field_error(from_ui, source_is_dir, extensions_well_formed(from_ui)),
            ) {
                Err(e) => Err::<BackupConfig, Error>(e),
                Ok(c) => Ok::<BackupConfig, Error>(BackupConfig { installation_dir: s.installation_dir, ..c }),
            },
        },
{
    let settings = match stored {
        Err(_) => {
            return Err(Error::LoadSettingsError);
        },
        Ok(s) => s,
    };
    match field_checks(from_ui, source_is_dir) {
        Err(e) => Err(e),
        Ok(c) => {
            let mut c = c;
            c.installation_dir = settings.installation_dir;
            Ok(c)
        },
    }
}

} // verus!
