//! The two kinds of voice and what they have in common.

use crate::config::{ModelConfig, Scale, SynthesisConfig, SynthesisConfigView};
use crate::error::{inference_prefix, PiperError, PiperResult};
use crate::inference::{
    captures, is_model_inputs_for, max_input_len, BackendRun, EncoderOutputs, ModelInputs,
};
use crate::parameters::{
    get_speaker_result, set_speaker_result, with_length_scale, with_noise_scale, with_noise_w,
};
use crate::phoneme_ids::{has_meta_ids, input_id_sequence, BOS, EOS, PAD};
use crate::speakers::{inverse, is_bijective, names};
use crate::streamer::{SpeechStreamer, StreamerState};
use crate::wave::{PiperWaveInfo, PiperWaveSamples, RawWaveSamples};
use std::collections::HashMap;
use vstd::prelude::*;

verus! {

/// The format of the audio of a voice: the sample rate of its descriptor, one
/// channel, two bytes per sample.
pub open spec fn wave_info_of(config: ModelConfig) -> PiperWaveInfo {
    PiperWaveInfo {
        sample_rate: config.audio.sample_rate as usize,
        num_channels: 1,
        sample_width: 2,
    }
}

/// What the two kinds of voice have in common: the descriptor, the speaker
/// names by id, the parameters, and all that is decided from them.
pub trait VitsModelCommons {
    /// The descriptor of the voice.
    spec fn spec_config(&self) -> ModelConfig;

    /// The parameters as they are now.
    spec fn spec_synth_config(&self) -> SynthesisConfigView;

    /// The names of the speakers by id.
    spec fn spec_speaker_names(&self) -> Map<i64, Seq<char>>;

    fn get_synth_config(&self) -> (r: &SynthesisConfig)
        ensures
            r@ == self.spec_synth_config(),
    ;

    /// Replaces the parameters, and nothing else.
    fn set_synth_config(&mut self, value: SynthesisConfig)
        ensures
            final(self).spec_synth_config() == value@,
            final(self).spec_config() == old(self).spec_config(),
            final(self).spec_speaker_names() == old(self).spec_speaker_names(),
    ;

    fn get_config(&self) -> (r: &ModelConfig)
        ensures
            *r == self.spec_config(),
    ;

    fn get_speaker_map(&self) -> (r: &HashMap<i64, String>)
        ensures
            names(r@) == self.spec_speaker_names(),
    ;

    /// The ids of padding, start and end of input, in this order. A voice
    /// whose vocabulary lacks one of them cannot synthesize.
    fn get_meta_ids(&self) -> (r: PiperResult<(i64, i64, i64)>)
        ensures
            match r {
                Ok((pad_id, bos_id, eos_id)) => {
                    let vocab = self.spec_config().phoneme_id_map@;
                    &&& has_meta_ids(vocab)
                    &&& pad_id == vocab[PAD]
                    &&& bos_id == vocab[BOS]
                    &&& eos_id == vocab[EOS]
                },
                Err(e) => !has_meta_ids(self.spec_config().phoneme_id_map@) && e is OperationError,
            },
    {
        crate::phoneme_ids::meta_ids(&self.get_config().phoneme_id_map)
    }

    /// The language code of the voice, where the descriptor names a language.
    fn language(&self) -> (r: Option<String>)
        ensures
            match self.spec_config().language {
                Some(language) => r is Some && r->0@ == language.spec_code(),
                None => r is None,
            },
    {
        match &self.get_config().language {
            Some(language) => Some(language.code().clone()),
            None => None,
        }
    }

    /// The quality label of the voice, where the descriptor has one.
    fn quality(&self) -> (r: Option<String>)
        ensures
            match self.spec_config().audio.quality {
                Some(quality) => r is Some && r->0@ == quality@,
                None => r is None,
            },
    {
        match &self.get_config().audio.quality {
            Some(quality) => Some(quality.clone()),
            None => None,
        }
    }

    /// The parameters the voice was made to be used with: the scales of the
    /// descriptor and, on a voice with configured speakers, the speaker with
    /// id 0 where that id has a name.
    fn default_synthesis_config(&self) -> (r: SynthesisConfig)
        ensures
            r@ == (SynthesisConfigView {
                speaker: if self.spec_config().num_speakers > 0
                    && self.spec_speaker_names().contains_key(0i64) {
                    Some((self.spec_speaker_names()[0i64], 0i64))
                } else {
                    None
                },
                noise_scale: self.spec_config().inference.noise_scale,
                length_scale: self.spec_config().inference.length_scale,
                noise_w: self.spec_config().inference.noise_w,
            }),
    {
        broadcast use vstd::std_specs::hash::group_hash_axioms;

        let config = self.get_config();
        let speaker: Option<(String, i64)> = if config.num_speakers > 0 {
            let first: i64 = 0;
            match self.get_speaker_map().get(&first) {
                Some(name) => Some((name.clone(), 0)),
                None => None,
            }
        } else {
            None
        };
        SynthesisConfig {
            speaker,
            noise_scale: config.inference.noise_scale,
            length_scale: config.inference.length_scale,
            noise_w: config.inference.noise_w,
        }
    }

    /// The names of the speakers by id.
    fn speakers(&self) -> (r: PiperResult<HashMap<i64, String>>)
        ensures
            r is Ok,
            names(r->Ok_0@) == self.spec_speaker_names(),
    {
        Ok(self.get_speaker_map().clone())
    }

    /// The name of the speaker in use. A voice without configured speakers
    /// has none to report.
    fn get_speaker(&self) -> (r: PiperResult<Option<String>>)
        ensures
            match get_speaker_result(
                self.spec_config().num_speakers,
                self.spec_synth_config(),
                self.spec_speaker_names(),
            ) {
                Some(name) => r matches Ok(Some(n)) && n@ == name,
                None => r is Err && r->Err_0 is OperationError,
            },
    {
        broadcast use vstd::std_specs::hash::group_hash_axioms;

        if self.get_config().num_speakers == 0 {
            return Err(PiperError::operation("This model is a single speaker model."));
        }
        match &self.get_synth_config().speaker {
            Some((name, _)) => Ok(Some(name.clone())),
            None => {
                let first: i64 = 0;
                match self.get_speaker_map().get(&first) {
                    Some(name) => Ok(Some(name.clone())),
                    None => Ok(Some(String::from_str("Default"))),
                }
            },
        }
    }

    /// Selects the speaker of the given name. It fails on a voice without
    /// configured speakers and for a name that the speaker table does not
    /// hold, and then changes nothing.
    fn set_speaker(&mut self, name: String) -> (r: PiperResult<()>)
        ensures
            final(self).spec_config() == old(self).spec_config(),
            final(self).spec_speaker_names() == old(self).spec_speaker_names(),
            match set_speaker_result(
                old(self).spec_config().num_speakers,
                old(self).spec_config().spec_speakers(),
                old(self).spec_synth_config(),
                name@,
            ) {
                Some(updated) => r is Ok && final(self).spec_synth_config() == updated,
                None => r is Err && r->Err_0 is OperationError && final(self).spec_synth_config()
                    == old(self).spec_synth_config(),
            },
    {
        if self.get_config().num_speakers == 0 {
            return Err(PiperError::operation("This model is a single speaker model."));
        }
        let found: Option<i64> = crate::speakers::speaker_id(
            &self.get_config().speaker_id_map,
            &name,
        );
        match found {
            Some(sid) => {
                let mut synth = self.get_synth_config().snapshot();
                synth.speaker = Some((name, sid));
                self.set_synth_config(synth);
                Ok(())
            },
            None => Err(
                PiperError::OperationError(
                    String::from_str("Invalid speaker name: `").concat(name.as_str()).concat("`"),
                ),
            ),
        }
    }

    fn get_noise_scale(&self) -> (r: PiperResult<Scale>)
        ensures
            r == Ok::<Scale, PiperError>(self.spec_synth_config().noise_scale),
    {
        Ok(self.get_synth_config().noise_scale)
    }

    fn set_noise_scale(&mut self, value: Scale) -> (r: PiperResult<()>)
        ensures
            r is Ok,
            final(self).spec_synth_config() == with_noise_scale(
                old(self).spec_synth_config(),
                value,
            ),
            final(self).spec_config() == old(self).spec_config(),
            final(self).spec_speaker_names() == old(self).spec_speaker_names(),
    {
        let mut synth = self.get_synth_config().snapshot();
        synth.noise_scale = value;
        self.set_synth_config(synth);
        Ok(())
    }

    fn get_length_scale(&self) -> (r: PiperResult<Scale>)
        ensures
            r == Ok::<Scale, PiperError>(self.spec_synth_config().length_scale),
    {
        Ok(self.get_synth_config().length_scale)
    }

    fn set_length_scale(&mut self, value: Scale) -> (r: PiperResult<()>)
        ensures
            r is Ok,
            final(self).spec_synth_config() == with_length_scale(
                old(self).spec_synth_config(),
                value,
            ),
            final(self).spec_config() == old(self).spec_config(),
            final(self).spec_speaker_names() == old(self).spec_speaker_names(),
    {
        let mut synth = self.get_synth_config().snapshot();
        synth.length_scale = value;
        self.set_synth_config(synth);
        Ok(())
    }

    fn get_noise_w(&self) -> (r: PiperResult<Scale>)
        ensures
            r == Ok::<Scale, PiperError>(self.spec_synth_config().noise_w),
    {
        Ok(self.get_synth_config().noise_w)
    }

    fn set_noise_w(&mut self, value: Scale) -> (r: PiperResult<()>)
        ensures
            r is Ok,
            final(self).spec_synth_config() == with_noise_w(old(self).spec_synth_config(), value),
            final(self).spec_config() == old(self).spec_config(),
            final(self).spec_speaker_names() == old(self).spec_speaker_names(),
    {
        let mut synth = self.get_synth_config().snapshot();
        synth.noise_w = value;
        self.set_synth_config(synth);
        Ok(())
    }

    /// Maps a phoneme string to the input of the model, with the given ids
    /// for padding, start and end. Characters that the vocabulary does not
    /// know are dropped without an error.
    fn phonemes_to_input_ids(&self, phonemes: &str, pad_id: i64, bos_id: i64, eos_id: i64) -> (ids:
        Vec<i64>)
        ensures
            ids@ == input_id_sequence(
                self.spec_config().phoneme_id_map@,
                phonemes@,
                pad_id,
                bos_id,
                eos_id,
            ),
    {
        crate::phoneme_ids::phonemes_to_input_ids(
            &self.get_config().phoneme_id_map,
            phonemes,
            pad_id,
            bos_id,
            eos_id,
        )
    }

    /// Maps a phoneme string to the input of the model, with the voice's own
    /// ids for padding, start and end.
    fn phoneme_ids(&self, phonemes: &str) -> (r: PiperResult<Vec<i64>>)
        ensures
            match r {
                Ok(ids) => {
                    let vocab = self.spec_config().phoneme_id_map@;
                    &&& has_meta_ids(vocab)
                    &&& ids@ == input_id_sequence(
                        vocab,
                        phonemes@,
                        vocab[PAD],
                        vocab[BOS],
                        vocab[EOS],
                    )
                },
                Err(e) => !has_meta_ids(self.spec_config().phoneme_id_map@) && e is OperationError,
            },
    {
        match self.get_meta_ids() {
            Ok((pad_id, bos_id, eos_id)) => Ok(
                self.phonemes_to_input_ids(phonemes, pad_id, bos_id, eos_id),
            ),
            Err(e) => Err(e),
        }
    }

    /// Maps each phoneme string of a batch to its input, one by one and in
    /// the order of the batch.
    fn batch_phoneme_ids(&self, phoneme_batches: &Vec<String>) -> (r: PiperResult<Vec<Vec<i64>>>)
        ensures
            match r {
                Ok(batch) => {
                    let vocab = self.spec_config().phoneme_id_map@;
                    &&& has_meta_ids(vocab)
                    &&& batch@.len() == phoneme_batches@.len()
                    &&& forall|i: int|
                        0 <= i < batch@.len() ==> (#[trigger] batch@[i])@ == input_id_sequence(
                            vocab,
                            phoneme_batches@[i]@,
                            vocab[PAD],
                            vocab[BOS],
                            vocab[EOS],
                        )
                },
                Err(e) => !has_meta_ids(self.spec_config().phoneme_id_map@) && e is OperationError,
            },
    {
        let (pad_id, bos_id, eos_id) = match self.get_meta_ids() {
            Ok(ids) => ids,
            Err(e) => {
                return Err(e);
            },
        };
        let ghost vocab = self.spec_config().phoneme_id_map@;
        let mut batch: Vec<Vec<i64>> = Vec::new();
        let mut i: usize = 0;
        while i < phoneme_batches.len()
            invariant
                0 <= i <= phoneme_batches@.len(),
                vocab == self.spec_config().phoneme_id_map@,
                has_meta_ids(vocab),
                pad_id == vocab[PAD],
                bos_id == vocab[BOS],
                eos_id == vocab[EOS],
                batch@.len() == i,
                forall|k: int|
                    0 <= k < i ==> (#[trigger] batch@[k])@ == input_id_sequence(
                        vocab,
                        phoneme_batches@[k]@,
                        pad_id,
                        bos_id,
                        eos_id,
                    ),
            decreases phoneme_batches@.len() - i,
        {
            let ids = self.phonemes_to_input_ids(
                phoneme_batches[i].as_str(),
                pad_id,
                bos_id,
                eos_id,
            );
            batch.push(ids);
            i += 1;
        }
        Ok(batch)
    }

    /// Builds what the model, or the encoder of a split model, is run on for
    /// the given ids, under the parameters as they are now.
    fn model_inputs(&self, input_phonemes: Vec<i64>) -> (r: PiperResult<ModelInputs>)
        ensures
            match r {
                Ok(inputs) => input_phonemes@.len() <= max_input_len() && is_model_inputs_for(
                    inputs,
                    self.spec_config().num_speakers,
                    self.spec_synth_config(),
                    input_phonemes@,
                ),
                Err(e) => input_phonemes@.len() > max_input_len() && e is OperationError,
            },
    {
        crate::inference::model_inputs(
            self.get_config().num_speakers,
            self.get_synth_config(),
            input_phonemes,
        )
    }

    /// The format of the audio of the voice: its sample rate, one channel,
    /// two bytes per sample.
    fn get_wave_info(&self) -> (r: PiperResult<PiperWaveInfo>)
        ensures
            r == Ok::<PiperWaveInfo, PiperError>(wave_info_of(self.spec_config())),
    {
        Ok(
            PiperWaveInfo {
                sample_rate: self.get_config().audio.sample_rate as usize,
                num_channels: 1,
                sample_width: 2,
            },
        )
    }

    /// Puts rendered samples together with the sample rate of the voice and
    /// the time the inference took.
    fn wave_samples(&self, samples: RawWaveSamples, inference_ms: Option<u64>) -> (r:
        PiperWaveSamples)
        ensures
            r.spec_samples() == samples@,
            r.spec_info() == wave_info_of(self.spec_config()),
            r.spec_inference_ms() == inference_ms,
    {
        PiperWaveSamples::new(
            samples,
            self.get_config().audio.sample_rate as usize,
            inference_ms,
        )
    }
}

/// A voice: what the kinds of voice have in common, shared between threads.
pub trait VitsVoice: VitsModelCommons + Send + Sync {

}

/// A voice whose model is run in one piece.
pub struct VitsModel {
    synth_config: SynthesisConfig,
    config: ModelConfig,
    speaker_map: HashMap<i64, String>,
}

/// A voice whose model is split into an encoder and a decoder, so that the
/// audio of an utterance can be handed out in chunks.
pub struct VitsStreamingModel {
    synth_config: SynthesisConfig,
    config: ModelConfig,
    speaker_map: HashMap<i64, String>,
}

/// Checks the speaker table of a descriptor and turns it round.
fn checked_speaker_map(config: &ModelConfig) -> (r: PiperResult<HashMap<i64, String>>)
    ensures
        match r {
            Ok(speaker_map) => is_bijective(config.spec_speakers()) && names(speaker_map@)
                == inverse(config.spec_speakers()),
            Err(e) => !is_bijective(config.spec_speakers()) && e is ConfigParseError,
        },
{
    if !crate::speakers::table_is_bijective(&config.speaker_id_map) {
        return Err(
            PiperError::config("The speaker table holds a name or an id more than once."),
        );
    }
    Ok(crate::speakers::reversed_mapping(&config.speaker_id_map))
}

impl VitsModel {
    #[verifier::type_invariant]
    spec fn inv(self) -> bool {
        &&& is_bijective(self.config.spec_speakers())
        &&& names(self.speaker_map@) == inverse(self.config.spec_speakers())
    }

    /// A voice from its descriptor and the parameters to start with. A
    /// speaker table that holds a name or an id more than once is a
    /// `ConfigParseError`.
    pub fn from_config(config: ModelConfig, synth_config: SynthesisConfig) -> (r: PiperResult<
        VitsModel,
    >)
        ensures
            match r {
                Ok(model) => {
                    &&& is_bijective(config.spec_speakers())
                    &&& model.spec_config() == config
                    &&& model.spec_synth_config() == synth_config@
                    &&& model.spec_speaker_names() == inverse(config.spec_speakers())
                },
                Err(e) => !is_bijective(config.spec_speakers()) && e is ConfigParseError,
            },
    {
        match checked_speaker_map(&config) {
            Ok(speaker_map) => Ok(VitsModel { synth_config, config, speaker_map }),
            Err(e) => Err(e),
        }
    }
}

impl VitsModelCommons for VitsModel {
    closed spec fn spec_config(&self) -> ModelConfig {
        self.config
    }

    closed spec fn spec_synth_config(&self) -> SynthesisConfigView {
        self.synth_config@
    }

    closed spec fn spec_speaker_names(&self) -> Map<i64, Seq<char>> {
        names(self.speaker_map@)
    }

    fn get_synth_config(&self) -> (r: &SynthesisConfig) {
        &self.synth_config
    }

    fn set_synth_config(&mut self, value: SynthesisConfig) {
        proof {
            use_type_invariant(&*self);
        }
        self.synth_config = value;
    }

    fn get_config(&self) -> (r: &ModelConfig)
        ensures
            is_bijective(r.spec_speakers()),
    {
        proof {
            use_type_invariant(self);
        }
        &self.config
    }

    fn get_speaker_map(&self) -> (r: &HashMap<i64, String>)
        ensures
            names(r@) == inverse(self.spec_config().spec_speakers()),
    {
        proof {
            use_type_invariant(self);
        }
        &self.speaker_map
    }
}

impl VitsVoice for VitsModel {

}

impl VitsStreamingModel {
    #[verifier::type_invariant]
    spec fn inv(self) -> bool {
        &&& is_bijective(self.config.spec_speakers())
        &&& names(self.speaker_map@) == inverse(self.config.spec_speakers())
    }

    /// A voice from its descriptor and the parameters to start with. A
    /// speaker table that holds a name or an id more than once is a
    /// `ConfigParseError`.
    pub fn from_config(config: ModelConfig, synth_config: SynthesisConfig) -> (r: PiperResult<
        VitsStreamingModel,
    >)
        ensures
            match r {
                Ok(model) => {
                    &&& is_bijective(config.spec_speakers())
                    &&& model.spec_config() == config
                    &&& model.spec_synth_config() == synth_config@
                    &&& model.spec_speaker_names() == inverse(config.spec_speakers())
                },
                Err(e) => !is_bijective(config.spec_speakers()) && e is ConfigParseError,
            },
    {
        match checked_speaker_map(&config) {
            Ok(speaker_map) => Ok(VitsStreamingModel { synth_config, config, speaker_map }),
            Err(e) => Err(e),
        }
    }

    /// Starts a stream over a run of the encoder. A failed run is an
    /// `InferenceError` with the backend's message; fewer than two outputs,
    /// or a chunk size of zero, are an `OperationError`. The decoder is not
    /// run before the first pull.
    pub fn stream_synthesis(
        &self,
        encoder_run: BackendRun,
        chunk_size: u32,
        chunk_padding: u32,
    ) -> (r: PiperResult<SpeechStreamer>)
        ensures
            match encoder_run {
                Ok(values) => if values@.len() >= 2 && chunk_size > 0 {
                    &&& r matches Ok(streamer)
                    &&& streamer.spec_state() == StreamerState::Ready
                    &&& streamer.spec_encoder_outputs() matches Some(outputs)
                    &&& captures(outputs, values@)
                    &&& streamer.spec_cursor() == 0
                    &&& streamer.spec_samples() == Seq::<i16>::empty()
                    &&& streamer.spec_chunk_size() == chunk_size
                    &&& streamer.spec_chunk_padding() == chunk_padding
                } else {
                    r is Err && r->Err_0 is OperationError
                },
                Err(message) => r matches Err(PiperError::InferenceError(m)) && m@
                    == inference_prefix() + message@,
            },
    {
        match EncoderOutputs::from_run(encoder_run) {
            Ok(outputs) => SpeechStreamer::new(outputs, chunk_size, chunk_padding),
            Err(e) => Err(e),
        }
    }
}

impl VitsModelCommons for VitsStreamingModel {
    closed spec fn spec_config(&self) -> ModelConfig {
        self.config
    }

    closed spec fn spec_synth_config(&self) -> SynthesisConfigView {
        self.synth_config@
    }

    closed spec fn spec_speaker_names(&self) -> Map<i64, Seq<char>> {
        names(self.speaker_map@)
    }

    fn get_synth_config(&self) -> (r: &SynthesisConfig) {
        &self.synth_config
    }

    fn set_synth_config(&mut self, value: SynthesisConfig) {
        proof {
            use_type_invariant(&*self);
        }
        self.synth_config = value;
    }

    fn get_config(&self) -> (r: &ModelConfig)
        ensures
            is_bijective(r.spec_speakers()),
    {
        proof {
            use_type_invariant(self);
        }
        &self.config
    }

    fn get_speaker_map(&self) -> (r: &HashMap<i64, String>)
        ensures
            names(r@) == inverse(self.spec_config().spec_speakers()),
    {
        proof {
            use_type_invariant(self);
        }
        &self.speaker_map
    }
}

impl VitsVoice for VitsStreamingModel {

}

/// A voice of one of the two kinds.
pub enum Voice {
    Monolithic(VitsModel),
    Streaming(VitsStreamingModel),
}

/// Makes the voice that a descriptor describes: a split one where the
/// descriptor says that it is streaming, else one in one piece. It starts
/// with no speaker selected and with the scales of the descriptor. A speaker
/// table that holds a name or an id more than once is a `ConfigParseError`.
pub fn from_config(config: ModelConfig) -> (r: PiperResult<Voice>)
    ensures
        match r {
            Ok(Voice::Streaming(model)) => {
                &&& config.streaming == Some(true)
                &&& is_bijective(config.spec_speakers())
                &&& model.spec_config() == config
                &&& model.spec_synth_config() == initial_parameters(config)
                &&& model.spec_speaker_names() == inverse(config.spec_speakers())
            },
            Ok(Voice::Monolithic(model)) => {
                &&& config.streaming != Some(true)
                &&& is_bijective(config.spec_speakers())
                &&& model.spec_config() == config
                &&& model.spec_synth_config() == initial_parameters(config)
                &&& model.spec_speaker_names() == inverse(config.spec_speakers())
            },
            Err(e) => !is_bijective(config.spec_speakers()) && e is ConfigParseError,
        },
{
    let synth_config = config.initial_synthesis_config();
    if config.is_streaming() {
        match VitsStreamingModel::from_config(config, synth_config) {
            Ok(model) => Ok(Voice::Streaming(model)),
            Err(e) => Err(e),
        }
    } else {
        match VitsModel::from_config(config, synth_config) {
            Ok(model) => Ok(Voice::Monolithic(model)),
            Err(e) => Err(e),
        }
    }
}

/// Two voices of the same descriptor and the same parameters, of whichever
/// kind, are run on the same inputs for the same ids; and what they make of
/// the same rendered samples has the same number of samples and the same
/// sample rate.
pub proof fn lemma_kinds_of_voice_agree<A: VitsModelCommons, B: VitsModelCommons>(
    whole: A,
    split: B,
    ids: Seq<i64>,
    inputs_of_whole: ModelInputs,
    inputs_of_split: ModelInputs,
    samples: Seq<i16>,
    wave_of_whole: PiperWaveSamples,
    wave_of_split: PiperWaveSamples,
)
    requires
        whole.spec_config() == split.spec_config(),
        whole.spec_synth_config() == split.spec_synth_config(),
        is_model_inputs_for(
            inputs_of_whole,
            whole.spec_config().num_speakers,
            whole.spec_synth_config(),
            ids,
        ),
        is_model_inputs_for(
            inputs_of_split,
            split.spec_config().num_speakers,
            split.spec_synth_config(),
            ids,
        ),
        wave_of_whole.spec_samples() == samples,
        wave_of_whole.spec_info() == wave_info_of(whole.spec_config()),
        wave_of_split.spec_samples() == samples,
        wave_of_split.spec_info() == wave_info_of(split.spec_config()),
    ensures
        inputs_of_whole.input@ == inputs_of_split.input@,
        inputs_of_whole.input_shape@ == inputs_of_split.input_shape@,
        inputs_of_whole.input_lengths@ == inputs_of_split.input_lengths@,
        inputs_of_whole.scales@ == inputs_of_split.scales@,
        inputs_of_whole.sid is Some <==> inputs_of_split.sid is Some,
        inputs_of_whole.sid is Some ==> inputs_of_whole.sid->0@ == inputs_of_split.sid->0@,
        wave_of_whole.spec_samples().len() == wave_of_split.spec_samples().len(),
        wave_of_whole.spec_info().sample_rate == wave_of_split.spec_info().sample_rate,
{
    crate::parameters::lemma_inputs_are_determined(
        inputs_of_whole,
        inputs_of_split,
        whole.spec_config().num_speakers,
        whole.spec_synth_config(),
        ids,
    );
}

/// The parameters a voice starts with: no speaker selected, and the scales
/// of the descriptor.
pub open spec fn initial_parameters(config: ModelConfig) -> SynthesisConfigView {
    SynthesisConfigView {
        speaker: None,
        noise_scale: config.inference.noise_scale,
        length_scale: config.inference.length_scale,
        noise_w: config.inference.noise_w,
    }
}

} // verus!
