use vstd::prelude::*;

verus! {

/// Every failure the library reports: configuration problems found before
/// tracking starts, and problems met while backing up.
#[derive(Clone, Copy, Debug, PartialEq, Eq, Structural)]
pub enum Error {
    HomeDirectoryError,
    ModeSelectionError,
    NoPathChosenError,
    LoadSettingsError,
    ApplySettingsError,
    ParentPathError,
    BuildErrorWindowsError,
    BuildSuccessWindowsError,
    BuildDenyWindowsError,
    ScreenSizeError,
    MillisUpdateFrequencyError,
    ZeroTrackingWindowSecError,
    HistoryCapacityError,
    FolderProvidedFileRequiredError,
    FileProvidedFolderRequiredError,
    ToleranceValueError,
    ExtensionTypeArrayEmptyError,
    ExtensionTypeFormatError,
    MouseTrackerCreationError,
    ExtensionOnlyValueError,
    BackupModeNotRecognizedError,
    BackupSourceError,
    FileTransferError,
    DaemonStartupError,
    UserLeverNotSupportedError,
    DaemonInstallationError,
    DaemonUninstallationError,
    DaemonStartError,
    DaemonStopError,
    InstallationDirectoryNotFound,
    CpuConsumptionLoggingError,
    BackupPathNotConfigured,
}

impl Error {
    /// The sentence shown to the user for this error.
    pub fn message(&self) -> &'static str {
        match self {
            Error::HomeDirectoryError => "Failed to retrieve user's home directory",
            Error::ModeSelectionError => "Unable to determine the backup mode",
            Error::NoPathChosenError => "No backup path selected. Please choose a valid path",
            Error::LoadSettingsError => "Configuration loading failed. Please try again.",
            Error::ApplySettingsError => "Configuration saving failed. Please try again.",
            Error::ParentPathError => "Failed to retrieve application configuration path",
            Error::BuildErrorWindowsError => "Error building the error window",
            Error::BuildSuccessWindowsError => "Error building the success window",
            Error::BuildDenyWindowsError => "Error building the deny window",
            Error::ScreenSizeError => "Primary display could not be found",
            Error::MillisUpdateFrequencyError => "Mouse sampling frequency must be a positive value",
            Error::ZeroTrackingWindowSecError => "Mouse tracking window cannot be zero seconds",
            Error::HistoryCapacityError => "Sampling frequency and tracking window give an empty position history, or one too large to allocate",
            Error::FolderProvidedFileRequiredError => "Backup mode set to 'file', but a folder was provided",
            Error::FileProvidedFolderRequiredError => "Backup mode set to 'folder', but a file was provided",
            Error::ToleranceValueError => "Tolerance value must be non-negative",
            Error::ExtensionTypeArrayEmptyError => "At least one file extension must be provided when using extension type option",
            Error::ExtensionTypeFormatError => "File extension list must be provided in the format: 'txt|pdf|png ...'",
            Error::MouseTrackerCreationError => "Failed to create mouse tracker",
            Error::ExtensionOnlyValueError => "'extension_only' attribute must be either 'true' or 'false'",
            Error::BackupModeNotRecognizedError => "Invalid backup mode. Must be 'file' or 'folder'",
            Error::BackupSourceError => "Failed to retrieve backup source",
            Error::FileTransferError => "File transfer failed",
            Error::DaemonStartupError => "Failed to start daemon service manager",
            Error::UserLeverNotSupportedError => "Service manager does not support user-level services",
            Error::DaemonInstallationError => "Failed to install daemon service. Try running as administrator",
            Error::DaemonUninstallationError => "Failed to uninstall daemon service",
            Error::DaemonStartError => "Failed to start daemon service",
            Error::DaemonStopError => "Failed to stop daemon service",
            Error::InstallationDirectoryNotFound => "Installation directory not found",
            Error::CpuConsumptionLoggingError => "Error calculating CPU consumption logging time",
            Error::BackupPathNotConfigured => "Backup source and/or destination path not configured",
        }
    }
}

} // verus!
