use sotto::errors::Error;
use sotto::errors::ModelIndexError;
use sotto::model::status_is_success;
use sotto::model::Model;

#[test]
fn identifiers() {
    assert_eq!(Model::WhisperTiny.to_identifier(), "whisper_tiny");
    assert_eq!(Model::WhisperBase.to_identifier(), "whisper_base");
    assert_eq!(Model::WhisperSmall.to_identifier(), "whisper_small");
    assert_eq!(Model::WhisperMedium.to_identifier(), "whisper_medium");
    assert_eq!(Model::WhisperLarge.to_identifier(), "whisper_large");
}

#[test]
fn file_names() {
    assert_eq!(Model::WhisperBase.file_name(), "whisper_base.bin");
    assert_eq!(Model::WhisperLarge.file_name(), "whisper_large.bin");
}

#[test]
fn status_classification() {
    assert!(status_is_success(200));
    assert!(status_is_success(204));
    assert!(status_is_success(299));
    assert!(!status_is_success(199));
    assert!(!status_is_success(300));
    assert!(!status_is_success(404));
    assert!(!status_is_success(500));
}

#[test]
fn resolve_url_from_good_index() {
    let body = "{\"whisper_base\": \"https://example.org/base.bin\", \
                \"whisper_tiny\": \"https://example.org/tiny.bin\"}";
    let url = Model::WhisperBase.resolve_model_url(200, body).unwrap();
    assert_eq!(url, "https://example.org/base.bin");
    let url2 = Model::WhisperTiny.resolve_model_url(200, body).unwrap();
    assert_eq!(url2, "https://example.org/tiny.bin");
}

#[test]
fn resolve_url_missing_key() {
    let body = "{\"whisper_base\": \"https://example.org/base.bin\"}";
    let r = Model::WhisperLarge.resolve_model_url(200, body);
    match r {
        Err(Error::ModelIndexError(ModelIndexError::Incomplete { missing_key })) => {
            assert_eq!(missing_key, "whisper_large");
        }
        other => panic!("unexpected outcome: {:?}", other),
    }
}

#[test]
fn resolve_url_bad_json() {
    let r = Model::WhisperBase.resolve_model_url(200, "not json at all");
    assert!(matches!(
        r,
        Err(Error::ModelIndexError(ModelIndexError::ParseFailed { .. }))
    ));
    let r2 = Model::WhisperBase.resolve_model_url(200, "[1, 2, 3]");
    assert!(matches!(
        r2,
        Err(Error::ModelIndexError(ModelIndexError::ParseFailed { .. }))
    ));
}

#[test]
fn resolve_url_bad_status() {
    let r = Model::WhisperBase.resolve_model_url(404, "{\"whisper_base\": \"x\"}");
    match r {
        Err(Error::GetModelIndexBadStatus { status }) => assert_eq!(status, 404),
        other => panic!("unexpected outcome: {:?}", other),
    }
}
