//! The error taxonomy: configuration, filesystem, selection, and I/O errors,
//! each with a fixed message text.

use vstd::prelude::*;

use crate::text::concat_str;
use crate::text::spec_decimal;
use crate::text::usize_to_string;

verus! {

#[verifier::external_type_specification]
#[verifier::external_body]
pub struct ExIoError(std::io::Error);

/// Relies on the `Display` impl of `std::io::Error`; nothing is assumed of
/// the text it renders.
#[verifier::external_body]
fn io_error_message(e: &std::io::Error) -> (r: String) {
    format!("{e}")
}

/// A fatal startup error: the environment the process needs is missing.
#[derive(Debug)]
pub enum ConfigError {
    HomeDirectoryNotFound,
    LogDirectoryCreationFailed(std::io::Error),
    LogFileCreationFailed(std::io::Error),
    LogInitializationFailed(String),
}

/// A filesystem failure met during navigation.
#[derive(Debug)]
pub enum FileSystemError {
    PathNotFound(String),
    PermissionDenied(String),
    InvalidPath(String),
    DirectoryReadFailed(std::io::Error),
}

/// A selection that an operation required but the state could not supply.
#[derive(Debug)]
pub enum UiError {
    NoItemSelected,
    InvalidSelection(usize),
    EmptyItemList,
}

/// Any error of the navigator.
#[derive(Debug)]
pub enum AppError {
    Config(ConfigError),
    FileSystem(FileSystemError),
    Ui(UiError),
    Io(std::io::Error),
    Other(String),
}

/// The message of a configuration error; `None` where the text embeds an
/// `std::io::Error` rendering, which is not specified.
pub open spec fn spec_config_message(e: ConfigError) -> Option<Seq<char>> {
    match e {
        ConfigError::HomeDirectoryNotFound => Some("Home directory not found"@),
        ConfigError::LogDirectoryCreationFailed(_) => None,
        ConfigError::LogFileCreationFailed(_) => None,
        ConfigError::LogInitializationFailed(m) => Some("Failed to initialize logging: "@ + m@),
    }
}

/// The message of a filesystem error; `None` where the text embeds an
/// `std::io::Error` rendering.
pub open spec fn spec_fs_message(e: FileSystemError) -> Option<Seq<char>> {
    match e {
        FileSystemError::PathNotFound(p) => Some("Path '"@ + p@ + "' not found"@),
        FileSystemError::PermissionDenied(p) => Some(
            "Permission denied for path '"@ + p@ + "'"@,
        ),
        FileSystemError::InvalidPath(p) => Some("Invalid path: '"@ + p@ + "'"@),
        FileSystemError::DirectoryReadFailed(_) => None,
    }
}

/// The message of a selection error.
pub open spec fn spec_ui_message(e: UiError) -> Seq<char> {
    match e {
        UiError::NoItemSelected => "No item selected"@,
        UiError::InvalidSelection(i) => "Invalid selection: index "@ + spec_decimal(i as nat),
        UiError::EmptyItemList => "Item list is empty"@,
    }
}

/// The message of any error; `None` where the text embeds an
/// `std::io::Error` rendering.
pub open spec fn spec_app_message(e: AppError) -> Option<Seq<char>> {
    match e {
        AppError::Config(c) => match spec_config_message(c) {
            Some(m) => Some("Configuration error: "@ + m),
            None => None,
        },
        AppError::FileSystem(f) => match spec_fs_message(f) {
            Some(m) => Some("File system error: "@ + m),
            None => None,
        },
        AppError::Ui(u) => Some("UI error: "@ + spec_ui_message(u)),
        AppError::Io(_) => None,
        AppError::Other(m) => Some("Error: "@ + m@),
    }
}

impl ConfigError {
    /// The message text of this error.
    pub fn to_message(&self) -> (r: String)
        ensures
            match spec_config_message(*self) {
                Some(m) => r@ == m,
                None => true,
            },
    {
        match self {
            ConfigError::HomeDirectoryNotFound => "Home directory not found".to_owned(),
            ConfigError::LogDirectoryCreationFailed(e) => concat_str(
                "Failed to create log directory: ",
                io_error_message(e).as_str(),
            ),
            ConfigError::LogFileCreationFailed(e) => concat_str(
                "Failed to create log file: ",
                io_error_message(e).as_str(),
            ),
            ConfigError::LogInitializationFailed(m) => concat_str(
                "Failed to initialize logging: ",
                m.as_str(),
            ),
        }
    }
}

impl FileSystemError {
    /// The message text of this error.
    pub fn to_message(&self) -> (r: String)
        ensures
            match spec_fs_message(*self) {
                Some(m) => r@ == m,
                None => true,
            },
    {
        match self {
            FileSystemError::PathNotFound(p) => concat_str(
                concat_str("Path '", p.as_str()).as_str(),
                "' not found",
            ),
            FileSystemError::PermissionDenied(p) => concat_str(
                concat_str("Permission denied for path '", p.as_str()).as_str(),
                "'",
            ),
            FileSystemError::InvalidPath(p) => concat_str(
                concat_str("Invalid path: '", p.as_str()).as_str(),
                "'",
            ),
            FileSystemError::DirectoryReadFailed(e) => concat_str(
                "Failed to read directory: ",
                io_error_message(e).as_str(),
            ),
        }
    }
}

impl UiError {
    /// The message text of this error.
    pub fn to_message(&self) -> (r: String)
        ensures
            r@ == spec_ui_message(*self),
    {
        match self {
            UiError::NoItemSelected => "No item selected".to_owned(),
            UiError::InvalidSelection(i) => concat_str(
                "Invalid selection: index ",
                usize_to_string(*i).as_str(),
            ),
            UiError::EmptyItemList => "Item list is empty".to_owned(),
        }
    }
}

impl AppError {
    /// The message text of this error.
    pub fn to_message(&self) -> (r: String)
        ensures
            match spec_app_message(*self) {
                Some(m) => r@ == m,
                None => true,
            },
    {
        match self {
            AppError::Config(e) => concat_str("Configuration error: ", e.to_message().as_str()),
            AppError::FileSystem(e) => concat_str("File system error: ", e.to_message().as_str()),
            AppError::Ui(e) => concat_str("UI error: ", e.to_message().as_str()),
            AppError::Io(e) => concat_str("I/O error: ", io_error_message(e).as_str()),
            AppError::Other(m) => concat_str("Error: ", m.as_str()),
        }
    }
}

impl From<std::io::Error> for AppError {
    fn from(error: std::io::Error) -> (r: AppError) {
        AppError::Io(error)
    }
}

impl vstd::std_specs::convert::FromSpecImpl<std::io::Error> for AppError {
    open spec fn obeys_from_spec() -> bool {
        true
    }

    open spec fn from_spec(error: std::io::Error) -> AppError {
        AppError::Io(error)
    }
}

impl From<ConfigError> for AppError {
    fn from(error: ConfigError) -> (r: AppError) {
        AppError::Config(error)
    }
}

impl vstd::std_specs::convert::FromSpecImpl<ConfigError> for AppError {
    open spec fn obeys_from_spec() -> bool {
        true
    }

    open spec fn from_spec(error: ConfigError) -> AppError {
        AppError::Config(error)
    }
}

impl From<FileSystemError> for AppError {
    fn from(error: FileSystemError) -> (r: AppError) {
        AppError::FileSystem(error)
    }
}

impl vstd::std_specs::convert::FromSpecImpl<FileSystemError> for AppError {
    open spec fn obeys_from_spec() -> bool {
        true
    }

    open spec fn from_spec(error: FileSystemError) -> AppError {
        AppError::FileSystem(error)
    }
}

impl From<UiError> for AppError {
    fn from(error: UiError) -> (r: AppError) {
        AppError::Ui(error)
    }
}

impl vstd::std_specs::convert::FromSpecImpl<UiError> for AppError {
    open spec fn obeys_from_spec() -> bool {
        true
    }

    open spec fn from_spec(error: UiError) -> AppError {
        AppError::Ui(error)
    }
}

} // verus!
