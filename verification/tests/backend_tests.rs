use qrscan::backend::classify_metadata;
use qrscan::backend::detect_in_features;
use qrscan::backend::scan_observations;
use qrscan::frame::Feature;
use qrscan::frame::MetadataKind;
use qrscan::frame::MetadataObject;
use qrscan::frame::Observation;
use qrscan::frame::RequestFault;
use qrscan::Backend;
use qrscan::FatalError;
use qrscan::Frame;

fn qr_object(payload: &str) -> MetadataObject {
    MetadataObject { kind: MetadataKind::QrCode, payload: String::from(payload) }
}

#[test]
fn classify_empty_finds_nothing() {
    let r = classify_metadata(MetadataKind::QrCode, &vec![]);
    assert!(!r.found);
    assert!(r.payload.is_none());
}

#[test]
fn classify_finds_configured_kind() {
    let objects = vec![
        MetadataObject { kind: MetadataKind::NonCode, payload: String::from("face") },
        qr_object("HELLO"),
    ];
    let r = classify_metadata(MetadataKind::QrCode, &objects);
    assert!(r.found);
    assert_eq!(r.payload.as_deref(), Some("HELLO"));
}

#[test]
fn classify_filters_other_kinds() {
    let objects = vec![MetadataObject {
        kind: MetadataKind::OtherCode,
        payload: String::from("ean"),
    }];
    let r = classify_metadata(MetadataKind::QrCode, &objects);
    assert!(!r.found);
    assert!(r.payload.is_none());
}

#[test]
fn classify_first_match_wins() {
    let objects = vec![qr_object("FIRST"), qr_object("SECOND")];
    let r = classify_metadata(MetadataKind::QrCode, &objects);
    assert_eq!(r.payload.as_deref(), Some("FIRST"));
}

#[test]
fn features_empty_is_no_detection() {
    let r = detect_in_features(&Some(vec![])).unwrap();
    assert!(!r.found);
    assert!(r.payload.is_none());
}

#[test]
fn features_first_is_consumed() {
    let fs = vec![
        Feature::Qr { message: Some(String::from("HELLO")) },
        Feature::Qr { message: Some(String::from("LATER")) },
    ];
    let r = detect_in_features(&Some(fs)).unwrap();
    assert!(r.found);
    assert_eq!(r.payload.as_deref(), Some("HELLO"));
}

#[test]
fn features_missing_buffer_is_fatal() {
    let r = detect_in_features(&None);
    assert_eq!(r.unwrap_err(), FatalError::ImageBufferMissing);
}

#[test]
fn features_wrong_shape_is_fatal() {
    let fs = vec![Feature::Other, Feature::Qr { message: Some(String::from("HELLO")) }];
    let r = detect_in_features(&Some(fs));
    assert_eq!(r.unwrap_err(), FatalError::UnexpectedFeatureKind);
}

#[test]
fn features_missing_message_is_fatal() {
    let r = detect_in_features(&Some(vec![Feature::Qr { message: None }]));
    assert_eq!(r.unwrap_err(), FatalError::MessageStringMissing);
}

#[test]
fn observations_empty_is_no_detection() {
    let r = scan_observations(&Ok(vec![])).unwrap();
    assert!(!r.found);
    assert!(r.payload.is_none());
}

#[test]
fn observations_skip_missing_payloads() {
    let obs = vec![
        Observation { payload: None },
        Observation { payload: Some(String::from("HELLO")) },
        Observation { payload: Some(String::from("LATER")) },
    ];
    let r = scan_observations(&Ok(obs)).unwrap();
    assert!(r.found);
    assert_eq!(r.payload.as_deref(), Some("HELLO"));
}

#[test]
fn observations_all_missing_is_no_detection() {
    let obs = vec![Observation { payload: None }, Observation { payload: None }];
    let r = scan_observations(&Ok(obs)).unwrap();
    assert!(!r.found);
}

#[test]
fn failed_request_is_fatal() {
    let r = scan_observations(&Err(RequestFault));
    assert_eq!(r.unwrap_err(), FatalError::RequestFailed);
}

#[test]
fn fatal_errors_name_the_failed_expectation() {
    assert_eq!(
        FatalError::ImageBufferMissing.describe(),
        "Should get image buffer from sample buffer"
    );
    assert_eq!(FatalError::UnexpectedFeatureKind.describe(), "Should be a QR code feature");
    assert_eq!(FatalError::MessageStringMissing.describe(), "Should have message string");
    assert_eq!(FatalError::RequestFailed.describe(), "Image requests should perform");
}

#[test]
fn backend_choice_is_transparent_for_hello() {
    let metadata_frame = Frame::Metadata { objects: vec![qr_object("HELLO")] };
    let image_frame = Frame::Image {
        features: Some(vec![Feature::Qr { message: Some(String::from("HELLO")) }]),
    };
    let vision_frame = Frame::Vision {
        observations: Ok(vec![Observation { payload: Some(String::from("HELLO")) }]),
    };

    let pairs = vec![
        (Backend::MetadataClassifier { configured: MetadataKind::QrCode }, metadata_frame),
        (Backend::ImageFeatureDetector, image_frame),
        (Backend::VisionRequestDetector, vision_frame),
    ];
    for (backend, frame) in &pairs {
        let d = backend.process(frame).unwrap();
        assert!(d.found);
        assert_eq!(d.payload.as_deref(), Some("HELLO"));
    }
}
