//! Verified core of a VITS voice: phoneme-id mapping, synthesis parameters,
//! model-input planning, encoder/decoder tensor routing and chunked streaming.
//!
//! The library never touches the inference engine or floating-point samples.
//! It decides what is handed to the engine and what is done with what comes
//! back; the caller performs the engine calls and the float-to-PCM rendering.

pub mod config;
pub mod error;
pub mod inference;
pub mod model;
pub mod parameters;
pub mod phoneme_ids;
pub mod speakers;
pub mod streamer;
pub mod wave;

pub use config::{
    AudioConfig, ESpeakConfig, InferenceConfig, Language, ModelConfig, Scale, SynthesisConfig,
    Vocabulary,
};
pub use error::{PiperError, PiperResult};
pub use inference::{
    BackendRun, EncoderOutputs, InputTensor, IntTensor, ModelInputs, Tensor,
};
pub use model::{from_config, VitsModel, VitsModelCommons, VitsStreamingModel, VitsVoice, Voice};
pub use speakers::reversed_mapping;
pub use streamer::{SpeechStreamer, StreamerState, StreamerStep};
pub use wave::{PiperWaveInfo, PiperWaveSamples, RawWaveSamples};
