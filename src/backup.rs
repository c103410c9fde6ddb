use vstd::prelude::*;
use crate::config::{BackupConfig, BackupMode, mode_of, parse_mode};
use crate::errors::Error;

verus! {

/// The folder created under the destination to receive the copy.
pub const BACKUP_DIR_NAME: &'static str = "emergency-backup";

/// The file, inside the backup folder, that records the cost of the last backup.
pub const BACKUP_LOG_FILE_NAME: &'static str = "backup_log_info.log";

/// What `Path::join` makes of a base path and a relative one.
pub uninterp spec fn path_joined(base: Seq<char>, rel: Seq<char>) -> Seq<char>;

/// Relies on std::path::Path::join: `rel` appended to `base` as a path component. Both
/// are UTF-8, so the lossy conversion back keeps every character.
#[verifier::external_body]
fn join_path(base: &str, rel: &str) -> (r: String)
    ensures
        r@ == path_joined(base@, rel@),
{
    std::path::Path::new(base).join(rel).to_string_lossy().into_owned()
}

/// What `Path::file_name` finds as the last component of a path.
pub uninterp spec fn file_name_of(path: Seq<char>) -> Option<Seq<char>>;

/// Relies on std::path::Path::file_name: the final component, or nothing when the path
/// ends in `..` or is a root or empty.
#[verifier::external_body]
fn file_name(path: &str) -> (r: Option<String>)
    ensures
        match r {
            Some(n) => file_name_of(path@) == Some(n@),
            None => file_name_of(path@) is None,
        },
{
    match std::path::Path::new(path).file_name() {
        Some(n) => Some(n.to_string_lossy().into_owned()),
        None => None,
    }
}

/// The copy a backup makes; the caller carries it out on the file system, then writes the
/// log record to `log_file`.
pub enum BackupPlan {
    /// Copy the folder `source` recursively into `destination`; when `include_filters` is
    /// not empty, only files whose path relative to `source` contains one of them are copied.
    Folder { source: String, destination: String, include_filters: Vec<String>, log_file: String },
    /// Create `destination_dir` and copy the file `source` to `destination_file` inside it.
    File { source: String, destination_dir: String, destination_file: String, log_file: String },
}

impl BackupPlan {
    /// What the copy produced, whose size the log records: the copied folder or file.
    pub fn copied_path(&self) -> (r: &String)
        ensures
            r == match self {
                BackupPlan::Folder { destination, .. } => destination,
                BackupPlan::File { destination_file, .. } => destination_file,
            },
    {
        match self {
            BackupPlan::Folder { destination, .. } => destination,
            BackupPlan::File { destination_file, .. } => destination_file,
        }
    }
}

/// Where the backup log record is written: inside the backup folder.
pub open spec fn log_path(c: BackupConfig) -> Seq<char> {
    path_joined(backup_dir(c), BACKUP_LOG_FILE_NAME@)
}

/// The folder that receives the copy.
pub open spec fn backup_dir(c: BackupConfig) -> Seq<char> {
    path_joined(c.backup_destination@, BACKUP_DIR_NAME@)
}

/// Each extension with a leading dot.
pub open spec fn dotted(exts: Seq<String>) -> Seq<Seq<char>> {
    exts.map_values(|e: String| seq!['.'] + e@)
}

pub open spec fn strings_view(xs: Seq<String>) -> Seq<Seq<char>> {
    xs.map_values(|s: String| s@)
}

/// The filters for a folder copy: the dotted extensions when filtering is on, none otherwise.
pub open spec fn include_filters_of(c: BackupConfig) -> Seq<Seq<char>> {
    if c.extension_only {
        dotted(c.extension_type@)
    } else {
        Seq::empty()
    }
}

pub fn dotted_extensions(exts: &Vec<String>) -> (r: Vec<String>)
    ensures
        strings_view(r@) == dotted(exts@),
{
    let mut out: Vec<String> = Vec::new();
    let mut i: usize = 0;
    while i < exts.len()
        invariant
            0 <= i <= exts@.len(),
            strings_view(out@) =~= dotted(exts@.subrange(0, i as int)),
        decreases exts.len() - i,
    {
        let mut d = String::from_str(".");
        proof {
            reveal_strlit(".");
            assert(d@ =~= seq!['.']);
        }
        d.append(exts[i].as_str());
        let ghost before = out@;
        out.push(d);
        proof {
            assert(d@ == seq!['.'] + exts@[i as int]@);
            assert(out@ =~= before.push(d));
            assert(strings_view(out@) =~= strings_view(before).push(d@));
            assert(dotted(exts@.subrange(0, i + 1)) =~= dotted(exts@.subrange(0, i as int)).push(d@));
        }
        i = i + 1;
    }
    assert(exts@.subrange(0, exts@.len() as int) =~= exts@);
    out
}

/// Decides what a backup of `settings` copies and where. An unknown mode fails before
/// anything is touched; so does a file-mode source with no file name.
pub fn backup(settings: &BackupConfig) -> (r: Result<BackupPlan, Error>)
    ensures
        match mode_of(settings.mode@) {
            None => r == Err::<BackupPlan, Error>(Error::BackupModeNotRecognizedError),
            Some(BackupMode::Folder) => r matches Ok(
                BackupPlan::Folder { source, destination, include_filters, log_file },
            ) && source@ == settings.backup_source@ && destination@ == backup_dir(*settings) && strings_view(
                include_filters@,
            ) == include_filters_of(*settings) && log_file@ == log_path(*settings),
            Some(BackupMode::File) => match file_name_of(settings.backup_source@) {
                None => r == Err::<BackupPlan, Error>(Error::BackupSourceError),
                Some(name) => r matches Ok(
                    BackupPlan::File { source, destination_dir, destination_file, log_file },
                ) && source@ == settings.backup_source@ && destination_dir@ == backup_dir(*settings)
                    && destination_file@ == path_joined(backup_dir(*settings), name) && log_file@ == log_path(
                    *settings,
                ),
            },
        },
{
    match parse_mode(&settings.mode) {
        None => Err(Error::BackupModeNotRecognizedError),
        Some(BackupMode::Folder) => {
            let destination = join_path(settings.backup_destination.as_str(), BACKUP_DIR_NAME);
            let include_filters = if settings.extension_only {
                dotted_extensions(&settings.extension_type)
            } else {
                Vec::new()
            };
            proof {
                if !settings.extension_only {
                    assert(strings_view(include_filters@) =~= Seq::<Seq<char>>::empty());
                }
            }
            let log_file = join_path(destination.as_str(), BACKUP_LOG_FILE_NAME);
            Ok(BackupPlan::Folder { source: settings.backup_source.clone(), destination, include_filters, log_file })
        },
        Some(BackupMode::File) => {
            let name = match file_name(settings.backup_source.as_str()) {
                None => {
                    return Err(Error::BackupSourceError);
                },
                Some(n) => n,
            };
            let destination_dir = join_path(settings.backup_destination.as_str(), BACKUP_DIR_NAME);
            let destination_file = join_path(destination_dir.as_str(), name.as_str());
            let log_file = join_path(destination_dir.as_str(), BACKUP_LOG_FILE_NAME);
            Ok(
                BackupPlan::File {
                    source: settings.backup_source.clone(),
                    destination_dir,
                    destination_file,
                    log_file,
                },
            )
        },
    }
}

pub open spec fn digit_char(d: nat) -> char {
    if d == 0 {
        '0'
    } else if d == 1 {
        '1'
    } else if d == 2 {
        '2'
    } else if d == 3 {
        '3'
    } else if d == 4 {
        '4'
    } else if d == 5 {
        '5'
    } else if d == 6 {
        '6'
    } else if d == 7 {
        '7'
    } else if d == 8 {
        '8'
    } else {
        '9'
    }
}

/// The decimal digits of `n`, without leading zeros.
pub open spec fn decimal(n: nat) -> Seq<char>
    decreases n,
{
    if n < 10 {
        seq![digit_char(n)]
    } else {
        decimal(n / 10).push(digit_char(n % 10))
    }
}

fn digit_str(d: u128) -> (r: &'static str)
    requires
        d < 10,
    ensures
        r@ == seq![digit_char(d as nat)],
{
    proof {
        reveal_strlit("0");
        reveal_strlit("1");
        reveal_strlit("2");
        reveal_strlit("3");
        reveal_strlit("4");
        reveal_strlit("5");
        reveal_strlit("6");
        reveal_strlit("7");
        reveal_strlit("8");
        reveal_strlit("9");
    }
    if d == 0 {
        "0"
    } else if d == 1 {
        "1"
    } else if d == 2 {
        "2"
    } else if d == 3 {
        "3"
    } else if d == 4 {
        "4"
    } else if d == 5 {
        "5"
    } else if d == 6 {
        "6"
    } else if d == 7 {
        "7"
    } else if d == 8 {
        "8"
    } else {
        "9"
    }
}

/// Appends the decimal digits of `n`.
pub fn append_decimal(out: &mut String, n: u128)
    ensures
        final(out)@ == old(out)@ + decimal(n as nat),
    decreases n,
{
    if n >= 10 {
        append_decimal(out, n / 10);
    }
    out.append(digit_str(n % 10));
    proof {
        if n < 10 {
            assert(n % 10 == n);
        }
    }
}

/// A size in bytes, in hundredths of a mebibyte, rounded to nearest with ties to even.
pub open spec fn size_hundredths(bytes: nat) -> nat {
    let q = (bytes * 100) / 1048576;
    let rem = (bytes * 100) % 1048576;
    if rem > 524288 || (rem == 524288 && q % 2 == 1) {
        q + 1
    } else {
        q
    }
}

/// Two digits, with a leading zero below ten.
pub open spec fn two_digits(n: nat) -> Seq<char> {
    seq![digit_char(n / 10), digit_char(n % 10)]
}

/// The backup log record: the CPU time the copy took and the size of what was copied.
pub open spec fn log_record(cpu_time_ms: nat, size_bytes: nat) -> Seq<char> {
    let h = size_hundredths(size_bytes);
    "Backup CPU time: "@ + decimal(cpu_time_ms) + " ms\n"@ + "Backup size: "@ + decimal(h / 100) + "."@
        + two_digits(h % 100) + " Mb"@
}

pub fn backup_log_record(cpu_time_ms: u128, size_bytes: u64) -> (r: String)
    ensures
        r@ == log_record(cpu_time_ms as nat, size_bytes as nat),
{
    let scaled: u128 = (size_bytes as u128) * 100;
    let q: u128 = scaled / 1048576;
    let rem: u128 = scaled % 1048576;
    let h: u128 = if rem > 524288 || (rem == 524288 && q % 2 == 1) {
        q + 1
    } else {
        q
    };
    let mut out = String::from_str("Backup CPU time: ");
    append_decimal(&mut out, cpu_time_ms);
    out.append(" ms\n");
    out.append("Backup size: ");
    append_decimal(&mut out, h / 100);
    out.append(".");
    let cents = h % 100;
    out.append(digit_str(cents / 10));
    out.append(digit_str(cents % 10));
    out.append(" Mb");
    proof {
        assert(h as nat == size_hundredths(size_bytes as nat));
        assert(out@ =~= log_record(cpu_time_ms as nat, size_bytes as nat));
    }
    out
}

} // verus!
