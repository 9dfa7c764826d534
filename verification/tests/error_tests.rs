use easychangedirectory::error::AppError;
use easychangedirectory::error::ConfigError;
use easychangedirectory::error::FileSystemError;
use easychangedirectory::error::UiError;

#[test]
fn test_app_error_display() {
    let config_error = AppError::Config(ConfigError::HomeDirectoryNotFound);
    assert_eq!(config_error.to_message(), "Configuration error: Home directory not found");

    let fs_error = AppError::FileSystem(FileSystemError::PathNotFound("/test".to_string()));
    assert_eq!(fs_error.to_message(), "File system error: Path '/test' not found");

    let ui_error = AppError::Ui(UiError::NoItemSelected);
    assert_eq!(ui_error.to_message(), "UI error: No item selected");
}

#[test]
fn test_error_conversions() {
    let io_error = std::io::Error::new(std::io::ErrorKind::NotFound, "file not found");
    let app_error: AppError = io_error.into();
    assert!(matches!(app_error, AppError::Io(_)));

    let config_error = ConfigError::HomeDirectoryNotFound;
    let app_error: AppError = config_error.into();
    assert!(matches!(app_error, AppError::Config(_)));

    let fs_error = FileSystemError::PathNotFound("test".to_string());
    let app_error: AppError = fs_error.into();
    assert!(matches!(app_error, AppError::FileSystem(_)));

    let ui_error = UiError::NoItemSelected;
    let app_error: AppError = ui_error.into();
    assert!(matches!(app_error, AppError::Ui(_)));
}

#[test]
fn test_app_error_to_anyhow() {
    let app_error = AppError::Other("test error".to_string());
    assert_eq!(app_error.to_message(), "Error: test error");
}

#[test]
fn test_config_error_messages() {
    assert_eq!(ConfigError::HomeDirectoryNotFound.to_message(), "Home directory not found");
    assert_eq!(
        ConfigError::LogInitializationFailed("boom".to_string()).to_message(),
        "Failed to initialize logging: boom"
    );
}

#[test]
fn test_fs_error_messages() {
    assert_eq!(
        FileSystemError::PermissionDenied("/locked".to_string()).to_message(),
        "Permission denied for path '/locked'"
    );
    assert_eq!(
        FileSystemError::InvalidPath("..".to_string()).to_message(),
        "Invalid path: '..'"
    );
}

#[test]
fn test_ui_error_messages() {
    assert_eq!(UiError::NoItemSelected.to_message(), "No item selected");
    assert_eq!(UiError::InvalidSelection(3).to_message(), "Invalid selection: index 3");
    assert_eq!(UiError::InvalidSelection(42).to_message(), "Invalid selection: index 42");
    assert_eq!(UiError::EmptyItemList.to_message(), "Item list is empty");
}

#[test]
fn test_io_error_messages_have_prefix() {
    let io_error = std::io::Error::new(std::io::ErrorKind::NotFound, "gone");
    let app_error: AppError = io_error.into();
    assert!(app_error.to_message().starts_with("I/O error: "));
    let dir_error =
        FileSystemError::DirectoryReadFailed(std::io::Error::new(std::io::ErrorKind::Other, "x"));
    assert!(dir_error.to_message().starts_with("Failed to read directory: "));
}
