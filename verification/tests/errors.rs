use sotto::errors::Error;
use sotto::errors::ModelIndexError;

#[test]
fn protocol_error_messages_are_stable() {
    assert_eq!(
        Error::AlreadyDictating.describe(),
        "cannot begin dictation, we're already dictating"
    );
    assert_eq!(
        Error::NotDictating.describe(),
        "cannot end recording, we aren't dictating"
    );
}

#[test]
fn error_messages_distinguish_causes() {
    assert_eq!(
        Error::NoInputDevice.describe(),
        "no audio input device found (do you have a microphone connected?)"
    );
    assert_eq!(
        Error::NoHomeDir.describe(),
        "couldn't find a home directory (please execute this program on a sane operating system)"
    );
    assert_eq!(
        Error::DictationTaskPanicked { message: "x".to_string() }.describe(),
        "dictation task panicked"
    );
    assert_eq!(
        Error::DownloadModelFailed { message: "x".to_string() }.describe(),
        "failed to download model (are you connected to the internet?)"
    );
    assert_eq!(
        Error::ModelIndexError(ModelIndexError::Incomplete { missing_key: "k".to_string() })
            .describe(),
        "the global model index is missing a key (this is a bug in Sotto, and will be fixed as soon as possible)"
    );
}
