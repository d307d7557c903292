use thermorawfilereader::errors::{
    classify_bundle_write_error, DotNetRuntimeCreationError, FsErrorKind,
};
use thermorawfilereader::runtime::{choose_store, needs_write, BundleStore, StoreChoice};
use thermorawfilereader::DotNetLibraryBundle;

#[test]
fn test_choose_store_precedence() {
    assert_eq!(
        choose_store(Some("/opt/bundle".to_string()), Some("/var/cache".to_string())),
        StoreChoice::Persistent("/opt/bundle".to_string())
    );
    assert_eq!(
        choose_store(None, Some("/var/cache".to_string())),
        StoreChoice::Persistent("/var/cache".to_string())
    );
    assert_eq!(choose_store(None, None), StoreChoice::Ephemeral);
}

#[test]
fn test_bundle_path() {
    let bundle = DotNetLibraryBundle::new(BundleStore::Path("/opt/bundle".to_string()));
    assert_eq!(bundle.path(), "/opt/bundle");
    let temp = DotNetLibraryBundle::new(BundleStore::TempDir("/tmp/bundle.x".to_string()));
    assert_eq!(temp.path(), "/tmp/bundle.x");
}

#[test]
fn test_runtime_installed_once() {
    let mut bundle = DotNetLibraryBundle::new(BundleStore::Path("/opt/bundle".to_string()));
    assert!(bundle.needs_runtime());
    let first = bundle.install_runtime(41);
    assert_eq!(first, 41);
    assert!(!bundle.needs_runtime());
    let second = bundle.install_runtime(97);
    assert_eq!(second, 41);
    let third = bundle.install_runtime(7);
    assert_eq!(third, 41);
}

#[test]
fn test_needs_write_cases() {
    let bundled = vec![0xab, 0xcd];
    assert!(needs_write(false, &Some(bundled.clone()), &bundled));
    assert!(needs_write(true, &None, &bundled));
    assert!(needs_write(true, &Some(vec![0xab, 0xce]), &bundled));
    assert!(needs_write(true, &Some(vec![0xab]), &bundled));
    assert!(!needs_write(true, &Some(bundled.clone()), &bundled));
}

#[test]
fn test_classify_bundle_write_error() {
    assert_eq!(
        classify_bundle_write_error(FsErrorKind::NotFound),
        DotNetRuntimeCreationError::FailedToWriteDLLBundle(FsErrorKind::NotFound)
    );
    assert_eq!(
        classify_bundle_write_error(FsErrorKind::PermissionDenied),
        DotNetRuntimeCreationError::FailedToWriteDLLBundle(FsErrorKind::PermissionDenied)
    );
    assert_eq!(
        classify_bundle_write_error(FsErrorKind::Other),
        DotNetRuntimeCreationError::IOError(FsErrorKind::Other)
    );
}

#[test]
fn test_creation_error_messages() {
    assert_eq!(
        DotNetRuntimeCreationError::LoadHostfxrError.message(),
        "Failed to load hostfxr. Is there a runtime available?"
    );
    assert_eq!(DotNetRuntimeCreationError::IOError(FsErrorKind::Other).message(), "I/O error");
}
