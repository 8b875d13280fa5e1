use qrscan::config::select_backend;
use qrscan::frame::MetadataKind;
use qrscan::Backend;
use qrscan::BackendSelection;
use qrscan::ConfigError;

fn selection(metadata: bool, core_image: bool, vision: bool) -> BackendSelection {
    BackendSelection { metadata, core_image, vision }
}

#[test]
fn zero_backends_fail_fast() {
    let r = select_backend(selection(false, false, false), MetadataKind::QrCode);
    assert_eq!(r.unwrap_err(), ConfigError::NoBackendSelected);
}

#[test]
fn two_backends_fail_fast() {
    let r = select_backend(selection(false, true, true), MetadataKind::QrCode);
    assert_eq!(r.unwrap_err(), ConfigError::MultipleBackendsSelected);
    let r = select_backend(selection(true, true, false), MetadataKind::QrCode);
    assert_eq!(r.unwrap_err(), ConfigError::MultipleBackendsSelected);
}

#[test]
fn three_backends_fail_fast() {
    let r = select_backend(selection(true, true, true), MetadataKind::QrCode);
    assert_eq!(r.unwrap_err(), ConfigError::MultipleBackendsSelected);
}

#[test]
fn each_single_backend_is_accepted() {
    let r = select_backend(selection(true, false, false), MetadataKind::QrCode);
    assert!(matches!(
        r,
        Ok(Backend::MetadataClassifier { configured: MetadataKind::QrCode })
    ));
    let r = select_backend(selection(false, true, false), MetadataKind::QrCode);
    assert!(matches!(r, Ok(Backend::ImageFeatureDetector)));
    let r = select_backend(selection(false, false, true), MetadataKind::QrCode);
    assert!(matches!(r, Ok(Backend::VisionRequestDetector)));
}

#[test]
fn config_errors_are_described() {
    assert_eq!(
        ConfigError::NoBackendSelected.describe(),
        "one detection backend must be enabled"
    );
    assert_eq!(
        ConfigError::MultipleBackendsSelected.describe(),
        "only one detection backend can be enabled at a time"
    );
}
