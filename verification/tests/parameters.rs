use piper_vits::{
    AudioConfig, ESpeakConfig, InferenceConfig, Language, ModelConfig, PiperError, Scale,
    SynthesisConfig, VitsModel, VitsModelCommons, VitsStreamingModel, Vocabulary,
};

fn descriptor(num_speakers: u32, speakers: &[(&str, i64)]) -> ModelConfig {
    let entries: Vec<(char, Vec<i64>)> =
        vec![('_', vec![0]), ('^', vec![1]), ('$', vec![2]), ('a', vec![10])];
    ModelConfig {
        key: None,
        language: Some(Language::new("ar".to_string(), None, None, None, None)),
        audio: AudioConfig { sample_rate: 16000, quality: Some("low".to_string()) },
        num_speakers,
        speaker_id_map: speakers.iter().map(|(n, i)| (n.to_string(), *i)).collect(),
        streaming: None,
        espeak: ESpeakConfig::new("ar".to_string()),
        inference: InferenceConfig {
            noise_scale: Scale::from_bits(1),
            length_scale: Scale::from_bits(2),
            noise_w: Scale::from_bits(3),
        },
        num_symbols: 4,
        phoneme_map: Vec::new(),
        phoneme_id_map: Vocabulary::from_entries(&entries).unwrap(),
    }
}

fn model(num_speakers: u32, speakers: &[(&str, i64)]) -> VitsModel {
    let config = descriptor(num_speakers, speakers);
    let synth = config.initial_synthesis_config();
    VitsModel::from_config(config, synth).unwrap()
}

#[test]
fn a_single_speaker_voice_has_no_speaker_to_get_or_set() {
    let mut m = model(0, &[]);
    assert!(matches!(m.get_speaker(), Err(PiperError::OperationError(_))));
    assert!(matches!(m.set_speaker("anna".to_string()), Err(PiperError::OperationError(_))));
    let mut m = model(0, &[("anna", 0)]);
    assert!(matches!(m.get_speaker(), Err(PiperError::OperationError(_))));
    assert!(matches!(m.set_speaker("anna".to_string()), Err(PiperError::OperationError(_))));
    assert_eq!(m.get_synth_config().speaker, None);
}

#[test]
fn a_selected_speaker_is_the_speaker_that_is_reported() {
    let mut m = model(3, &[("anna", 0), ("ben", 1), ("carl", 2)]);
    assert_eq!(m.set_speaker("ben".to_string()), Ok(()));
    assert_eq!(m.get_speaker(), Ok(Some("ben".to_string())));
    assert_eq!(m.get_synth_config().speaker, Some(("ben".to_string(), 1)));
    assert_eq!(m.set_speaker("carl".to_string()), Ok(()));
    assert_eq!(m.get_speaker(), Ok(Some("carl".to_string())));
    assert_eq!(m.get_synth_config().speaker, Some(("carl".to_string(), 2)));
}

#[test]
fn an_unknown_name_is_refused_and_changes_nothing() {
    let mut m = model(2, &[("anna", 0), ("ben", 1)]);
    assert_eq!(m.set_speaker("ben".to_string()), Ok(()));
    let r = m.set_speaker("dora".to_string());
    assert_eq!(
        r,
        Err(PiperError::OperationError("Invalid speaker name: `dora`".to_string()))
    );
    assert_eq!(m.get_speaker(), Ok(Some("ben".to_string())));
}

#[test]
fn without_a_selection_the_speaker_with_id_zero_is_reported() {
    let m = model(2, &[("anna", 1), ("ben", 0)]);
    assert_eq!(m.get_speaker(), Ok(Some("ben".to_string())));
}

#[test]
fn without_a_name_for_id_zero_the_speaker_is_called_default() {
    let m = model(2, &[("anna", 5), ("ben", 6)]);
    assert_eq!(m.get_speaker(), Ok(Some("Default".to_string())));
    let m = model(2, &[]);
    assert_eq!(m.get_speaker(), Ok(Some("Default".to_string())));
}

#[test]
fn the_default_parameters_select_speaker_zero() {
    let m = model(2, &[("anna", 1), ("ben", 0)]);
    let d = m.default_synthesis_config();
    assert_eq!(d.speaker, Some(("ben".to_string(), 0)));
    assert_eq!(d.noise_scale, Scale::from_bits(1));
    assert_eq!(d.length_scale, Scale::from_bits(2));
    assert_eq!(d.noise_w, Scale::from_bits(3));
    let single = model(0, &[("ben", 0)]);
    assert_eq!(single.default_synthesis_config().speaker, None);
    let unnamed = model(2, &[("anna", 1)]);
    assert_eq!(unnamed.default_synthesis_config().speaker, None);
}

#[test]
fn a_voice_starts_with_the_scales_of_its_descriptor() {
    let m = model(1, &[("anna", 0)]);
    assert_eq!(m.get_noise_scale(), Ok(Scale::from_bits(1)));
    assert_eq!(m.get_length_scale(), Ok(Scale::from_bits(2)));
    assert_eq!(m.get_noise_w(), Ok(Scale::from_bits(3)));
    assert_eq!(m.get_synth_config().speaker, None);
}

#[test]
fn a_scale_that_was_set_is_the_scale_that_is_read() {
    let mut m = model(1, &[("anna", 0)]);
    assert_eq!(m.set_noise_scale(Scale::from_bits(0x3f00_0000)), Ok(()));
    assert_eq!(m.get_noise_scale(), Ok(Scale::from_bits(0x3f00_0000)));
    assert_eq!(m.get_length_scale(), Ok(Scale::from_bits(2)));
    assert_eq!(m.get_noise_w(), Ok(Scale::from_bits(3)));
    assert_eq!(m.set_length_scale(Scale::from_bits(0x4000_0000)), Ok(()));
    assert_eq!(m.get_length_scale(), Ok(Scale::from_bits(0x4000_0000)));
    assert_eq!(m.get_noise_scale(), Ok(Scale::from_bits(0x3f00_0000)));
    assert_eq!(m.set_noise_w(Scale::from_bits(0x3e80_0000)), Ok(()));
    assert_eq!(m.get_noise_w(), Ok(Scale::from_bits(0x3e80_0000)));
    assert_eq!(m.get_noise_scale(), Ok(Scale::from_bits(0x3f00_0000)));
    assert_eq!(m.get_length_scale(), Ok(Scale::from_bits(0x4000_0000)));
}

#[test]
fn setting_a_scale_keeps_the_selected_speaker() {
    let mut m = model(2, &[("anna", 0), ("ben", 1)]);
    assert_eq!(m.set_speaker("ben".to_string()), Ok(()));
    assert_eq!(m.set_noise_w(Scale::from_bits(9)), Ok(()));
    assert_eq!(m.get_speaker(), Ok(Some("ben".to_string())));
}

#[test]
fn inputs_built_before_an_update_keep_their_scales() {
    let mut m = model(2, &[("anna", 0), ("ben", 1)]);
    let snapshot: SynthesisConfig = m.get_synth_config().snapshot();
    let before = m.model_inputs(vec![1, 0, 10, 0, 2]).unwrap();
    assert_eq!(m.set_noise_scale(Scale::from_bits(77)), Ok(()));
    assert_eq!(m.set_speaker("ben".to_string()), Ok(()));
    assert_eq!(
        before.scales,
        vec![Scale::from_bits(1), Scale::from_bits(2), Scale::from_bits(3)]
    );
    assert_eq!(before.sid, Some(vec![0]));
    assert_eq!(snapshot.noise_scale, Scale::from_bits(1));
    assert_eq!(snapshot.speaker, None);
    let after = m.model_inputs(vec![1, 0, 10, 0, 2]).unwrap();
    assert_eq!(
        after.scales,
        vec![Scale::from_bits(77), Scale::from_bits(2), Scale::from_bits(3)]
    );
    assert_eq!(after.sid, Some(vec![1]));
}

#[test]
fn the_speakers_of_a_voice_are_its_table_turned_round() {
    let m = model(2, &[("anna", 0), ("ben", 1)]);
    let speakers = m.speakers().unwrap();
    assert_eq!(speakers.len(), 2);
    assert_eq!(speakers.get(&0), Some(&"anna".to_string()));
    assert_eq!(speakers.get(&1), Some(&"ben".to_string()));
    assert_eq!(m.get_speaker_map().get(&1), Some(&"ben".to_string()));
}

#[test]
fn a_speaker_table_with_a_repeated_id_is_refused() {
    let config = descriptor(2, &[("anna", 0), ("ben", 0)]);
    let synth = config.initial_synthesis_config();
    assert!(matches!(
        VitsModel::from_config(config, synth),
        Err(PiperError::ConfigParseError(_))
    ));
    let config = descriptor(2, &[("anna", 0), ("anna", 1)]);
    let synth = config.initial_synthesis_config();
    assert!(matches!(
        VitsStreamingModel::from_config(config, synth),
        Err(PiperError::ConfigParseError(_))
    ));
}

#[test]
fn a_streaming_voice_has_the_same_speaker_rules() {
    let config = descriptor(2, &[("anna", 0), ("ben", 1)]);
    let synth = config.initial_synthesis_config();
    let mut m = VitsStreamingModel::from_config(config, synth).unwrap();
    assert_eq!(m.get_speaker(), Ok(Some("anna".to_string())));
    assert_eq!(m.set_speaker("ben".to_string()), Ok(()));
    assert_eq!(m.get_speaker(), Ok(Some("ben".to_string())));
    assert!(matches!(m.set_speaker("x".to_string()), Err(PiperError::OperationError(_))));
}

#[test]
fn language_quality_and_wave_info_come_from_the_descriptor() {
    let m = model(1, &[("anna", 0)]);
    assert_eq!(m.language(), Some("ar".to_string()));
    assert_eq!(m.quality(), Some("low".to_string()));
    let info = m.get_wave_info().unwrap();
    assert_eq!(info.sample_rate, 16000);
    assert_eq!(info.num_channels, 1);
    assert_eq!(info.sample_width, 2);
    assert!(m.get_config().needs_diacritization());
}

#[test]
fn only_the_arabic_voice_needs_diacritization() {
    let mut config = descriptor(1, &[]);
    assert!(config.needs_diacritization());
    config.espeak = ESpeakConfig::new("en-us".to_string());
    assert!(!config.needs_diacritization());
    config.espeak = ESpeakConfig::new("a".to_string());
    assert!(!config.needs_diacritization());
    config.espeak = ESpeakConfig::new("ara".to_string());
    assert!(!config.needs_diacritization());
    assert_eq!(config.espeak.voice(), "ara");
}

#[test]
fn a_descriptor_without_language_or_quality_reports_none() {
    let mut config = descriptor(1, &[]);
    config.language = None;
    config.audio.quality = None;
    let synth = config.initial_synthesis_config();
    let m = VitsModel::from_config(config, synth).unwrap();
    assert_eq!(m.language(), None);
    assert_eq!(m.quality(), None);
}
