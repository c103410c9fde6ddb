use vstd::prelude::*;
use crate::errors::Error;

verus! {

/// The user's backup settings, as stored by the settings collaborator.
#[derive(Clone, Debug)]
pub struct BackupConfig {
    /// Interval between two pointer samples, in milliseconds.
    pub millis_update_frequency: usize,
    /// Time within which the second command must follow the first, in seconds.
    pub tracking_window_sec: usize,
    /// Pixel slack when matching the non-origin corners.
    pub tolerance: u32,
    pub backup_source: String,
    /// An `emergency-backup` folder is created under it to receive the copy.
    pub backup_destination: String,
    /// When set, only files whose extension is listed in `extension_type` are copied.
    pub extension_only: bool,
    pub extension_type: Vec<String>,
    /// `Folder` or `File`, in any letter case.
    pub mode: String,
    /// Whether the tracking service is running.
    pub active: bool,
    pub installation_dir: Option<String>,
}

/// The settings used when none have been saved yet.
pub open spec fn is_default_config(c: BackupConfig) -> bool {
    &&& c.backup_source@ == Seq::<char>::empty()
    &&& c.backup_destination@ == Seq::<char>::empty()
    &&& c.millis_update_frequency == 200
    &&& c.tracking_window_sec == 15
    &&& c.tolerance == 5
    &&& !c.extension_only
    &&& c.extension_type@.len() == 0
    &&& !c.active
    &&& c.mode@ == seq!['F', 'o', 'l', 'd', 'e', 'r']
    &&& c.installation_dir is None
}

impl Default for BackupConfig {
    fn default() -> (r: BackupConfig)
        ensures
            is_default_config(r),
    {
        let mode = String::from_str("Folder");
        proof {
            reveal_strlit("Folder");
            assert(mode@ =~= seq!['F', 'o', 'l', 'd', 'e', 'r']);
        }
        BackupConfig {
            backup_source: String::new(),
            backup_destination: String::new(),
            millis_update_frequency: 200,
            tracking_window_sec: 15,
            tolerance: 5,
            extension_only: false,
            extension_type: Vec::new(),
            active: false,
            mode,
            installation_dir: None,
        }
    }
}

/// What the backup copies: one file, or a whole folder.
#[derive(Clone, Copy, Debug, PartialEq, Eq, Structural)]
pub enum BackupMode {
    File,
    Folder,
}

impl BackupMode {
    /// The mode's name as the settings store it.
    pub fn name(&self) -> (r: String)
        ensures
            r@ == match self {
                BackupMode::File => seq!['f', 'i', 'l', 'e'],
                BackupMode::Folder => seq!['f', 'o', 'l', 'd', 'e', 'r'],
            },
    {
        proof {
            reveal_strlit("file");
            reveal_strlit("folder");
        }
        match self {
            BackupMode::File => {
                let r = String::from_str("file");
                assert(r@ =~= seq!['f', 'i', 'l', 'e']);
                r
            },
            BackupMode::Folder => {
                let r = String::from_str("folder");
                assert(r@ =~= seq!['f', 'o', 'l', 'd', 'e', 'r']);
                r
            },
        }
    }
}

/// What `str::to_lowercase` makes of a string.
pub uninterp spec fn lower_of(s: Seq<char>) -> Seq<char>;

/// Relies on str::to_lowercase: the lowercase form, a function of the characters alone.
#[verifier::external_body]
fn lowercase(s: &str) -> (r: String)
    ensures
        r@ == lower_of(s@),
{
    s.to_lowercase()
}

/// The mode named by an already lowercased string.
pub open spec fn mode_of_lowered(l: Seq<char>) -> Option<BackupMode> {
    if l == seq!['f', 'i', 'l', 'e'] {
        Some(BackupMode::File)
    } else if l == seq!['f', 'o', 'l', 'd', 'e', 'r'] {
        Some(BackupMode::Folder)
    } else {
        None
    }
}

/// The mode named by `mode`, compared without regard to letter case.
pub open spec fn mode_of(mode: Seq<char>) -> Option<BackupMode> {
    mode_of_lowered(lower_of(mode))
}

/// The mode named by a string that is already in lowercase.
pub fn mode_from_lowercase(lowered: &String) -> (r: Option<BackupMode>)
    ensures
        r == mode_of_lowered(lowered@),
{
    let file = String::from_str("file");
    let folder = String::from_str("folder");
    proof {
        reveal_strlit("file");
        reveal_strlit("folder");
        assert(file@ =~= seq!['f', 'i', 'l', 'e']);
        assert(folder@ =~= seq!['f', 'o', 'l', 'd', 'e', 'r']);
    }
    if *lowered == file {
        Some(BackupMode::File)
    } else if *lowered == folder {
        Some(BackupMode::Folder)
    } else {
        None
    }
}

/// The mode named by `mode`, in any letter case.
pub fn parse_mode(mode: &String) -> (r: Option<BackupMode>)
    ensures
        r == mode_of(mode@),
{
    let lowered = lowercase(mode.as_str());
    mode_from_lowercase(&lowered)
}

/// Whether `text` matches the regular expression `pattern` (false if it does not compile).
pub uninterp spec fn regex_matches(pattern: Seq<char>, text: Seq<char>) -> bool;

/// Relies on regex::Regex::new and Regex::is_match: compiles `pattern` and tests `text`;
/// a pattern that does not compile matches nothing.
#[verifier::external_body]
fn regex_is_match(pattern: &str, text: &str) -> (r: bool)
    ensures
        r == regex_matches(pattern@, text@),
{
    match regex::Regex::new(pattern) {
        Ok(re) => re.is_match(text),
        Err(_) => false,
    }
}

/// The form an extension list must have once joined with `|`: word characters and bars.
pub const EXTENSION_LIST_PATTERN: &'static str = "^(\\w+|\\|)+$";

/// The extensions joined with `|` between them.
pub open spec fn joined(xs: Seq<String>) -> Seq<char>
    decreases xs.len(),
{
    if xs.len() == 0 {
        Seq::empty()
    } else if xs.len() == 1 {
        xs[0]@
    } else {
        joined(xs.drop_last()) + seq!['|'] + xs.last()@
    }
}

pub fn join_extensions(xs: &Vec<String>) -> (r: String)
    ensures
        r@ == joined(xs@),
{
    let mut out = String::new();
    let mut i: usize = 0;
    while i < xs.len()
        invariant
            0 <= i <= xs@.len(),
            out@ == joined(xs@.subrange(0, i as int)),
        decreases xs.len() - i,
    {
        if i > 0 {
            out.append("|");
            proof {
                reveal_strlit("|");
            }
        }
        out.append(xs[i].as_str());
        proof {
            let s = xs@.subrange(0, i + 1);
            assert(s.drop_last() =~= xs@.subrange(0, i as int));
            if i == 0 {
                assert(out@ =~= s[0]@);
            }
        }
        i = i + 1;
    }
    assert(xs@.subrange(0, xs@.len() as int) =~= xs@);
    out
}

/// The first rule that `c` breaks, given whether its source is a directory and whether
/// its joined extension list has the required form.
pub open spec fn field_error(c: BackupConfig, source_is_dir: bool, extensions_well_formed: bool) -> Option<Error> {
    if c.millis_update_frequency == 0 {
        Some(Error::MillisUpdateFrequencyError)
    } else if c.extension_only && !extensions_well_formed {
        Some(Error::ExtensionTypeFormatError)
    } else if c.extension_only && c.extension_type@.len() == 0 {
        Some(Error::ExtensionTypeArrayEmptyError)
    } else if c.tracking_window_sec == 0 {
        Some(Error::ZeroTrackingWindowSecError)
    } else if mode_of(c.mode@) == Some(BackupMode::File) && source_is_dir {
        Some(Error::FolderProvidedFileRequiredError)
    } else if mode_of(c.mode@) == Some(BackupMode::Folder) && !source_is_dir {
        Some(Error::FileProvidedFolderRequiredError)
    } else {
        None
    }
}

pub open spec fn checked(c: BackupConfig, e: Option<Error>) -> Result<BackupConfig, Error> {
    match e {
        Some(err) => Err(err),
        None => Ok(c),
    }
}

/// Whether the extension list, joined with `|`, has the form the settings require.
pub open spec fn extensions_well_formed(c: BackupConfig) -> bool {
    regex_matches(EXTENSION_LIST_PATTERN@, joined(c.extension_type@))
}

/// Validates `backup_config`, given the outcome of the extension-list check.
pub fn check_fields(backup_config: BackupConfig, source_is_dir: bool, extensions_well_formed: bool) -> (r: Result<
    BackupConfig,
    Error,
>)
    ensures
        r == checked(backup_config, field_error(backup_config, source_is_dir, extensions_well_formed)),
{
    if backup_config.millis_update_frequency == 0 {
        return Err(Error::MillisUpdateFrequencyError);
    }
    if backup_config.extension_only {
        if !extensions_well_formed {
            return Err(Error::ExtensionTypeFormatError);
        }
        if backup_config.extension_type.len() == 0 {
            return Err(Error::ExtensionTypeArrayEmptyError);
        }
    }
    if backup_config.tracking_window_sec == 0 {
        return Err(Error::ZeroTrackingWindowSecError);
    }
    match parse_mode(&backup_config.mode) {
        Some(BackupMode::File) => {
            if source_is_dir {
                return Err(Error::FolderProvidedFileRequiredError);
            }
        },
        Some(BackupMode::Folder) => {
            if !source_is_dir {
                return Err(Error::FileProvidedFolderRequiredError);
            }
        },
        None => {},
    }
    Ok(backup_config)
}

/// Validates `backup_config` before it is saved or tracking starts; `source_is_dir` tells
/// whether its source path names a directory. A file-mode configuration with a directory
/// source, or a folder-mode one with a file source, is refused.
pub fn field_checks(backup_config: BackupConfig, source_is_dir: bool) -> (r: Result<BackupConfig, Error>)
    ensures
        r == checked(
            backup_config,
            field_error(backup_config, source_is_dir, extensions_well_formed(backup_config)),
        ),
{
    let list = join_extensions(&backup_config.extension_type);
    let well_formed = regex_is_match(EXTENSION_LIST_PATTERN, list.as_str());
    check_fields(backup_config, source_is_dir, well_formed)
}

} // verus!
