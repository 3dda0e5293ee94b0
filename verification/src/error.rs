//! The failures of the dictation pipeline, and what the user is told of each.

use crate::platform::Platform;
use crate::text::{decimal_digits, push_decimal};
use vstd::prelude::*;
use vstd::string::*;

verus! {

/// The ten kinds of failure that a stage of the pipeline reports.
#[derive(Clone, Copy, Debug, PartialEq, Eq, Structural)]
pub enum ErrorKind {
    /// No input device, or its format could not be queried.
    Device,
    /// The capture stream could not be built or started.
    Capture,
    /// Capture ended without audio worth transcribing.
    NoAudioCaptured,
    /// Credentials or a model path are not configured.
    Configuration,
    /// The model file is missing or cannot be loaded.
    ModelLoad,
    /// On-device decoding failed or gave nothing.
    Inference,
    /// The request could not be sent or its answer not read.
    Network,
    /// The service answered with a status other than success.
    RemoteService,
    /// The service's answer is not the JSON that was expected.
    MalformedResponse,
    /// The clipboard or the keystroke injection failed.
    Paste,
}

/// What went wrong in a stage of the pipeline.
#[derive(Clone, Debug, PartialEq, Eq)]
pub enum PipelineError {
    /// The product is not activated.
    NotActivated,
    /// No input device was found.
    NoInputDevice,
    /// The input device's default format could not be queried; with the
    /// driver's words.
    DeviceConfig(String),
    /// The system keeps the microphone from this application.
    MicrophoneBlocked,
    /// The capture stream could not be built or started; with the driver's
    /// words.
    CaptureStart(String),
    /// The recording could not be written out; with the whole message.
    AudioFile(String),
    /// Capture stopped with an empty buffer.
    NoAudioCaptured,
    /// The recording has too few samples to hold speech.
    AudioTooShort,
    /// The upload has too few bytes to hold speech.
    UploadTooSmall,
    /// The endpoint or the key of the remote service is not set.
    MissingCredential,
    /// The local backend is selected and no model path is known.
    MissingModelPath,
    /// No model file at this path.
    ModelNotFound(String),
    /// The model file could not be loaded; with the loader's words.
    ModelLoad(String),
    /// The audio could not be read or decoding failed; with the whole
    /// message.
    Inference(String),
    /// The local model produced no text.
    NoLocalText,
    /// The local worker is gone or did not answer; with the whole message.
    WorkerUnavailable(String),
    /// The request could not be sent or its answer not read; with the whole
    /// message.
    Network(String),
    /// The service answered with this status and body.
    RemoteService { status: u16, body: String },
    /// The service answered success with a blank body.
    EmptyResponse,
    /// The JSON parser refused the body; with the parser's words.
    InvalidJson(String),
    /// The JSON has no string member `text`.
    MissingTextField,
    /// The `text` member is blank.
    EmptyText,
    /// The clipboard or the keystroke injection failed; with the whole
    /// message.
    Paste(String),
}

/// What the user is told where no microphone is found.
pub open spec fn no_device_text(platform: Platform) -> Seq<char> {
    if platform == Platform::Windows {
        "No microphone found. Open Windows Settings → Privacy & Security → Microphone and make sure microphone access is turned ON, then restart Verba."@
    } else {
        "No microphone found. On macOS, grant access in System Settings → Privacy & Security → Microphone for Verba."@
    }
}

/// What follows the driver's words where the stream did not start.
pub open spec fn capture_advice(platform: Platform) -> Seq<char> {
    if platform == Platform::Windows {
        ". Open Windows Settings → Privacy & Security → Microphone and make sure it's ON."@
    } else {
        ". Grant access in System Settings → Privacy & Security → Microphone."@
    }
}

impl PipelineError {
    /// The kind of failure, for use in contracts.
    pub open spec fn spec_kind(&self) -> ErrorKind {
        match *self {
            PipelineError::NotActivated => ErrorKind::Configuration,
            PipelineError::NoInputDevice => ErrorKind::Device,
            PipelineError::DeviceConfig(_) => ErrorKind::Device,
            PipelineError::MicrophoneBlocked => ErrorKind::Capture,
            PipelineError::CaptureStart(_) => ErrorKind::Capture,
            PipelineError::AudioFile(_) => ErrorKind::Capture,
            PipelineError::NoAudioCaptured => ErrorKind::NoAudioCaptured,
            PipelineError::AudioTooShort => ErrorKind::NoAudioCaptured,
            PipelineError::UploadTooSmall => ErrorKind::NoAudioCaptured,
            PipelineError::MissingCredential => ErrorKind::Configuration,
            PipelineError::MissingModelPath => ErrorKind::Configuration,
            PipelineError::ModelNotFound(_) => ErrorKind::ModelLoad,
            PipelineError::ModelLoad(_) => ErrorKind::ModelLoad,
            PipelineError::Inference(_) => ErrorKind::Inference,
            PipelineError::NoLocalText => ErrorKind::Inference,
            PipelineError::WorkerUnavailable(_) => ErrorKind::Inference,
            PipelineError::Network(_) => ErrorKind::Network,
            PipelineError::RemoteService { .. } => ErrorKind::RemoteService,
            PipelineError::EmptyResponse => ErrorKind::MalformedResponse,
            PipelineError::InvalidJson(_) => ErrorKind::MalformedResponse,
            PipelineError::MissingTextField => ErrorKind::MalformedResponse,
            PipelineError::EmptyText => ErrorKind::MalformedResponse,
            PipelineError::Paste(_) => ErrorKind::Paste,
        }
    }

    /// What the user is told, for use in contracts.
    pub open spec fn message_text(&self, platform: Platform) -> Seq<char> {
        match *self {
            PipelineError::NotActivated => "Please activate with a product key first"@,
            PipelineError::NoInputDevice => no_device_text(platform),
            PipelineError::DeviceConfig(d) => "Failed to get default input config: "@ + d@,
            PipelineError::MicrophoneBlocked => "Microphone access is blocked. Open Windows Settings → Privacy & Security → Microphone, turn it ON, then restart Verba."@,
            PipelineError::CaptureStart(d) => "Microphone failed to start: "@ + d@ + capture_advice(
                platform,
            ),
            PipelineError::AudioFile(m) => m@,
            PipelineError::NoAudioCaptured => "No audio captured. Grant microphone access in System Settings → Privacy & Security → Microphone (look for Verba), then try again."@,
            PipelineError::AudioTooShort => "Audio file too short, likely no speech captured"@,
            PipelineError::UploadTooSmall => "Audio file too small, likely no speech captured"@,
            PipelineError::MissingCredential => "Azure credential not set — enter your endpoint and API key in Settings → Transcription (Azure section)."@,
            PipelineError::MissingModelPath => "Local model path not set"@,
            PipelineError::ModelNotFound(path) => "Local model not found at "@ + path@
                + ". In Settings → Transcription, click \"Download model\" for the selected size, or choose a smaller size (e.g. Tiny) that you've already downloaded."@,
            PipelineError::ModelLoad(d) => "Failed to load model: "@ + d@,
            PipelineError::Inference(m) => m@,
            PipelineError::NoLocalText => "Local Whisper returned no text"@,
            PipelineError::WorkerUnavailable(m) => m@,
            PipelineError::Network(m) => m@,
            PipelineError::RemoteService { status, body } => "Whisper API error "@ + decimal_digits(
                status as nat,
            ) + ": "@ + body@,
            PipelineError::EmptyResponse => "Whisper API returned an empty response"@,
            PipelineError::InvalidJson(d) => "Failed to parse JSON: "@ + d@,
            PipelineError::MissingTextField => "No 'text' field in Whisper response"@,
            PipelineError::EmptyText => "Whisper returned empty text"@,
            PipelineError::Paste(m) => m@,
        }
    }

    /// The kind of failure.
    #[verifier::when_used_as_spec(spec_kind)]
    pub fn kind(&self) -> (k: ErrorKind)
        ensures
            k == self.spec_kind(),
    {
        match self {
            PipelineError::NotActivated => ErrorKind::Configuration,
            PipelineError::NoInputDevice => ErrorKind::Device,
            PipelineError::DeviceConfig(_) => ErrorKind::Device,
            PipelineError::MicrophoneBlocked => ErrorKind::Capture,
            PipelineError::CaptureStart(_) => ErrorKind::Capture,
            PipelineError::AudioFile(_) => ErrorKind::Capture,
            PipelineError::NoAudioCaptured => ErrorKind::NoAudioCaptured,
            PipelineError::AudioTooShort => ErrorKind::NoAudioCaptured,
            PipelineError::UploadTooSmall => ErrorKind::NoAudioCaptured,
            PipelineError::MissingCredential => ErrorKind::Configuration,
            PipelineError::MissingModelPath => ErrorKind::Configuration,
            PipelineError::ModelNotFound(_) => ErrorKind::ModelLoad,
            PipelineError::ModelLoad(_) => ErrorKind::ModelLoad,
            PipelineError::Inference(_) => ErrorKind::Inference,
            PipelineError::NoLocalText => ErrorKind::Inference,
            PipelineError::WorkerUnavailable(_) => ErrorKind::Inference,
            PipelineError::Network(_) => ErrorKind::Network,
            PipelineError::RemoteService { .. } => ErrorKind::RemoteService,
            PipelineError::EmptyResponse => ErrorKind::MalformedResponse,
            PipelineError::InvalidJson(_) => ErrorKind::MalformedResponse,
            PipelineError::MissingTextField => ErrorKind::MalformedResponse,
            PipelineError::EmptyText => ErrorKind::MalformedResponse,
            PipelineError::Paste(_) => ErrorKind::Paste,
        }
    }

    /// What the user is told.
    pub fn message(&self, platform: Platform) -> (m: String)
        ensures
            m@ == self.message_text(platform),
    {
        let windows: bool = match platform {
            Platform::Windows => true,
            _ => false,
        };
        match self {
            PipelineError::NotActivated => "Please activate with a product key first".to_string(),
            PipelineError::NoInputDevice => {
                if windows {
                    "No microphone found. Open Windows Settings → Privacy & Security → Microphone and make sure microphone access is turned ON, then restart Verba.".to_string()
                } else {
                    "No microphone found. On macOS, grant access in System Settings → Privacy & Security → Microphone for Verba.".to_string()
                }
            },
            PipelineError::DeviceConfig(d) => {
                "Failed to get default input config: ".to_string().concat(d.as_str())
            },
            PipelineError::MicrophoneBlocked => "Microphone access is blocked. Open Windows Settings → Privacy & Security → Microphone, turn it ON, then restart Verba.".to_string(),
            PipelineError::CaptureStart(d) => {
                let head = "Microphone failed to start: ".to_string().concat(d.as_str());
                if windows {
                    head.concat(
                        ". Open Windows Settings → Privacy & Security → Microphone and make sure it's ON.",
                    )
                } else {
                    head.concat(
                        ". Grant access in System Settings → Privacy & Security → Microphone.",
                    )
                }
            },
            PipelineError::AudioFile(m) => m.clone(),
            PipelineError::NoAudioCaptured => "No audio captured. Grant microphone access in System Settings → Privacy & Security → Microphone (look for Verba), then try again.".to_string(),
            PipelineError::AudioTooShort => "Audio file too short, likely no speech captured".to_string(),
            PipelineError::UploadTooSmall => "Audio file too small, likely no speech captured".to_string(),
            PipelineError::MissingCredential => "Azure credential not set — enter your endpoint and API key in Settings → Transcription (Azure section).".to_string(),
            PipelineError::MissingModelPath => "Local model path not set".to_string(),
            PipelineError::ModelNotFound(path) => {
                "Local model not found at ".to_string().concat(path.as_str()).concat(
                    ". In Settings → Transcription, click \"Download model\" for the selected size, or choose a smaller size (e.g. Tiny) that you've already downloaded.",
                )
            },
            PipelineError::ModelLoad(d) => "Failed to load model: ".to_string().concat(d.as_str()),
            PipelineError::Inference(m) => m.clone(),
            PipelineError::NoLocalText => "Local Whisper returned no text".to_string(),
            PipelineError::WorkerUnavailable(m) => m.clone(),
            PipelineError::Network(m) => m.clone(),
            PipelineError::RemoteService { status, body } => {
                let mut m = "Whisper API error ".to_string();
                push_decimal(&mut m, *status as u128);
                m.concat(": ").concat(body.as_str())
            },
            PipelineError::EmptyResponse => "Whisper API returned an empty response".to_string(),
            PipelineError::InvalidJson(d) => "Failed to parse JSON: ".to_string().concat(d.as_str()),
            PipelineError::MissingTextField => "No 'text' field in Whisper response".to_string(),
            PipelineError::EmptyText => "Whisper returned empty text".to_string(),
            PipelineError::Paste(m) => m.clone(),
        }
    }
}

} // verus!
