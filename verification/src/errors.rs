//! The error taxonomy of the dictation application.
//!
//! Protocol errors (`AlreadyDictating`, `NotDictating`) report caller misuse
//! of the session state machine; the remaining variants carry the reason a
//! resource acquisition, a collaborator call, or the worker itself failed.
//! Where the failure originated in an outside library, the variant holds that
//! library's report as a plain message so the cause is preserved but not
//! swallowed.

use vstd::prelude::*;

verus! {

/// Everything that can go wrong while dictating.
#[derive(Debug, Clone)]
pub enum Error {
    /// `begin` was called while a session was already active.
    AlreadyDictating,
    /// `end` was called while no recording was in progress.
    NotDictating,
    /// The temporary file the session records into could not be created.
    TmpFileCreationFailed { message: String },
    /// The worker terminated abnormally instead of reporting a result.
    DictationTaskPanicked { message: String },
    /// No audio input device was found.
    NoInputDevice,
    /// The default input device's configuration could not be read.
    GetDefaultInputConfigFailed { message: String },
    /// The WAV writer for the captured audio could not be created.
    CreateWavWriterFailed { message: String },
    /// The audio input stream could not be built.
    BuildInputStreamFailed { message: String },
    /// The audio input stream could not be started.
    StartStreamFailed { message: String },
    /// The speech-recognition context could not be instantiated.
    LoadWhisperCtxFailed { message: String },
    /// A state for the speech-recognition context could not be created.
    CreateWhisperStateFailed { message: String },
    /// The recorded audio file could not be opened for reading.
    CreateWavReaderFailed { message: String },
    /// A sample of the recorded audio could not be parsed.
    ParseSampleFailed { message: String },
    /// Running the speech-recognition model failed.
    WhisperRunFailed { message: String },
    /// The number of segments in the recognition output could not be read.
    GetNumSegmentsFailed { message: String },
    /// The text of a recognition output segment could not be read.
    GetSegmentTextFailed { message: String },
    /// No home directory could be found.
    NoHomeDir,
    /// Downloading the model itself failed.
    DownloadModelFailed { message: String },
    /// The model download was answered with a failure status code.
    DownloadModelBadStatus { status: u16 },
    /// The file for the downloaded model could not be created.
    CreateModelFileFailed { message: String },
    /// A chunk of the model download could not be read.
    BadChunk { message: String },
    /// A chunk of the model download could not be written to disk.
    WriteChunkFailed { message: String },
    /// The model index could not be fetched.
    GetModelIndexFailed { message: String },
    /// The model index fetch was answered with a failure status code.
    GetModelIndexBadStatus { status: u16 },
    /// The model index itself is unusable.
    ModelIndexError(ModelIndexError),
    /// The directory models are stored under could not be created.
    CreateSottoDirFailed { message: String },
}

/// Errors that herald a severe problem with the published model index, which
/// affects every installation at once and should be reported immediately.
#[derive(Debug, Clone)]
pub enum ModelIndexError {
    /// The model index is not valid JSON of the expected shape.
    ParseFailed { message: String },
    /// The model index is missing the key for a model a released
    /// application needs.
    Incomplete { missing_key: String },
}

impl Error {
    /// The stable, descriptive message for this error, distinguishing its
    /// cause so a caller can show something actionable.
    pub open spec fn spec_message(self) -> Seq<char> {
        match self {
            Error::AlreadyDictating => "cannot begin dictation, we're already dictating"@,
            Error::NotDictating => "cannot end recording, we aren't dictating"@,
            Error::TmpFileCreationFailed { .. } => "failed to create temporary file to record to"@,
            Error::DictationTaskPanicked { .. } => "dictation task panicked"@,
            Error::NoInputDevice => "no audio input device found (do you have a microphone connected?)"@,
            Error::GetDefaultInputConfigFailed { .. } => "failed to get configuration for default audio input device"@,
            Error::CreateWavWriterFailed { .. } => "failed to create a wav file writer to record audio"@,
            Error::BuildInputStreamFailed { .. } => "failed to build input stream for recording audio"@,
            Error::StartStreamFailed { .. } => "failed to start audio input stream for recording"@,
            Error::LoadWhisperCtxFailed { .. } => "failed to instantiate context for speech recognition"@,
            Error::CreateWhisperStateFailed { .. } => "failed to create state for speech recognition"@,
            Error::CreateWavReaderFailed { .. } => "failed to create a reader for recorded audio"@,
            Error::ParseSampleFailed { .. } => "failed to parse recorded audio sample (try again, but your microphone may not be compatible with Sotto)"@,
            Error::WhisperRunFailed { .. } => "failed to run speech recognition model"@,
            Error::GetNumSegmentsFailed { .. } => "failed to get number of segments in speech recognition output"@,
            Error::GetSegmentTextFailed { .. } => "failed to extract text from speech recognition output"@,
            Error::NoHomeDir => "couldn't find a home directory (please execute this program on a sane operating system)"@,
            Error::DownloadModelFailed { .. } => "failed to download model (are you connected to the internet?)"@,
            Error::DownloadModelBadStatus { .. } => "downloading model failed with a bad http status code"@,
            Error::CreateModelFileFailed { .. } => "failed to create a file for the downloaded model"@,
            Error::BadChunk { .. } => "found bad chunk in downloaded model response"@,
            Error::WriteChunkFailed { .. } => "failed to write chunk of downloaded model to file"@,
            Error::GetModelIndexFailed { .. } => "failed to get model index to download model (are you connected to the internet?)"@,
            Error::GetModelIndexBadStatus { .. } => "getting model index failed with a bad http status code"@,
            Error::ModelIndexError(source) => source.spec_message(),
            Error::CreateSottoDirFailed { .. } => "failed to create `.sotto` directory in your home directory for storing models"@,
        }
    }

    /// Renders the stable message for this error.
    pub fn describe(&self) -> (r: String)
        ensures
            r@ == self.spec_message(),
    {
        match self {
            Error::AlreadyDictating => String::from_str("cannot begin dictation, we're already dictating"),
            Error::NotDictating => String::from_str("cannot end recording, we aren't dictating"),
            Error::TmpFileCreationFailed { .. } => String::from_str("failed to create temporary file to record to"),
            Error::DictationTaskPanicked { .. } => String::from_str("dictation task panicked"),
            Error::NoInputDevice => String::from_str("no audio input device found (do you have a microphone connected?)"),
            Error::GetDefaultInputConfigFailed { .. } => String::from_str("failed to get configuration for default audio input device"),
            Error::CreateWavWriterFailed { .. } => String::from_str("failed to create a wav file writer to record audio"),
            Error::BuildInputStreamFailed { .. } => String::from_str("failed to build input stream for recording audio"),
            Error::StartStreamFailed { .. } => String::from_str("failed to start audio input stream for recording"),
            Error::LoadWhisperCtxFailed { .. } => String::from_str("failed to instantiate context for speech recognition"),
            Error::CreateWhisperStateFailed { .. } => String::from_str("failed to create state for speech recognition"),
            Error::CreateWavReaderFailed { .. } => String::from_str("failed to create a reader for recorded audio"),
            Error::ParseSampleFailed { .. } => String::from_str("failed to parse recorded audio sample (try again, but your microphone may not be compatible with Sotto)"),
            Error::WhisperRunFailed { .. } => String::from_str("failed to run speech recognition model"),
            Error::GetNumSegmentsFailed { .. } => String::from_str("failed to get number of segments in speech recognition output"),
            Error::GetSegmentTextFailed { .. } => String::from_str("failed to extract text from speech recognition output"),
            Error::NoHomeDir => String::from_str("couldn't find a home directory (please execute this program on a sane operating system)"),
            Error::DownloadModelFailed { .. } => String::from_str("failed to download model (are you connected to the internet?)"),
            Error::DownloadModelBadStatus { .. } => String::from_str("downloading model failed with a bad http status code"),
            Error::CreateModelFileFailed { .. } => String::from_str("failed to create a file for the downloaded model"),
            Error::BadChunk { .. } => String::from_str("found bad chunk in downloaded model response"),
            Error::WriteChunkFailed { .. } => String::from_str("failed to write chunk of downloaded model to file"),
            Error::GetModelIndexFailed { .. } => String::from_str("failed to get model index to download model (are you connected to the internet?)"),
            Error::GetModelIndexBadStatus { .. } => String::from_str("getting model index failed with a bad http status code"),
            Error::ModelIndexError(source) => source.describe(),
            Error::CreateSottoDirFailed { .. } => String::from_str("failed to create `.sotto` directory in your home directory for storing models"),
        }
    }
}

impl ModelIndexError {
    /// The stable, descriptive message for this model-index error.
    pub open spec fn spec_message(self) -> Seq<char> {
        match self {
            ModelIndexError::ParseFailed { .. } => "failed to parse global model index (this is a bug in Sotto, and will be fixed as soon as possible)"@,
            ModelIndexError::Incomplete { .. } => "the global model index is missing a key (this is a bug in Sotto, and will be fixed as soon as possible)"@,
        }
    }

    /// Renders the stable message for this model-index error.
    pub fn describe(&self) -> (r: String)
        ensures
            r@ == self.spec_message(),
    {
        match self {
            ModelIndexError::ParseFailed { .. } => String::from_str("failed to parse global model index (this is a bug in Sotto, and will be fixed as soon as possible)"),
            ModelIndexError::Incomplete { .. } => String::from_str("the global model index is missing a key (this is a bug in Sotto, and will be fixed as soon as possible)"),
        }
    }
}

} // verus!
