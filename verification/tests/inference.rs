use piper_vits::inference::{audio_output, model_inputs};
use piper_vits::{
    EncoderOutputs, InputTensor, IntTensor, PiperError, Scale, SynthesisConfig, Tensor,
};

fn parameters(speaker: Option<(&str, i64)>) -> SynthesisConfig {
    SynthesisConfig {
        speaker: speaker.map(|(n, i)| (n.to_string(), i)),
        noise_scale: Scale::from_bits(0x3f2a_c083),
        length_scale: Scale::from_bits(0x3f80_0000),
        noise_w: Scale::from_bits(0x3f4c_cccd),
    }
}

fn tensor(shape: &[usize], data: &[u32]) -> Tensor {
    Tensor::new(shape.to_vec(), data.to_vec())
}

#[test]
fn inputs_hold_ids_length_and_scales() {
    let inputs = model_inputs(1, &parameters(None), vec![1, 0, 10, 0, 2]).unwrap();
    assert_eq!(inputs.input, vec![1, 0, 10, 0, 2]);
    assert_eq!(inputs.input_shape, vec![1, 5]);
    assert_eq!(inputs.input_lengths, vec![5]);
    assert_eq!(
        inputs.scales,
        vec![
            Scale::from_bits(0x3f2a_c083),
            Scale::from_bits(0x3f80_0000),
            Scale::from_bits(0x3f4c_cccd)
        ]
    );
    assert_eq!(inputs.sid, None);
}

#[test]
fn inputs_of_no_ids_have_no_columns() {
    let inputs = model_inputs(0, &parameters(None), Vec::new()).unwrap();
    assert_eq!(inputs.input, Vec::<i64>::new());
    assert_eq!(inputs.input_shape, vec![1, 0]);
    assert_eq!(inputs.input_lengths, vec![0]);
    assert_eq!(inputs.sid, None);
}

#[test]
fn only_a_voice_of_several_speakers_is_given_a_speaker_id() {
    let chosen = parameters(Some(("ben", 4)));
    assert_eq!(model_inputs(0, &chosen, vec![1]).unwrap().sid, None);
    assert_eq!(model_inputs(1, &chosen, vec![1]).unwrap().sid, None);
    assert_eq!(model_inputs(2, &chosen, vec![1]).unwrap().sid, Some(vec![4]));
    assert_eq!(model_inputs(900, &chosen, vec![1]).unwrap().sid, Some(vec![4]));
}

#[test]
fn without_a_selection_the_speaker_id_is_zero() {
    assert_eq!(model_inputs(2, &parameters(None), vec![1]).unwrap().sid, Some(vec![0]));
}

#[test]
fn the_audio_is_the_first_output() {
    let first = tensor(&[1, 1, 3], &[7, 8, 9]);
    let second = tensor(&[1], &[1]);
    assert_eq!(audio_output(Ok(vec![first.clone(), second])), Ok(first.clone()));
    assert_eq!(audio_output(Ok(vec![first.clone()])), Ok(first));
}

#[test]
fn a_run_without_output_is_an_operation_error() {
    assert!(matches!(audio_output(Ok(Vec::new())), Err(PiperError::OperationError(_))));
}

#[test]
fn a_failed_run_is_an_inference_error_with_the_backend_message() {
    assert_eq!(
        audio_output(Err("shape mismatch".to_string())),
        Err(PiperError::InferenceError(
            "Failed to run model inference. Error: shape mismatch".to_string()
        ))
    );
    let e = EncoderOutputs::from_run(Err("no session".to_string())).unwrap_err();
    assert_eq!(
        e,
        PiperError::InferenceError("Failed to run model inference. Error: no session".to_string())
    );
    assert_eq!(e.message(), "Failed to run model inference. Error: no session");
}

#[test]
fn fewer_than_two_encoder_outputs_are_an_operation_error() {
    assert!(matches!(EncoderOutputs::new(Vec::new()), Err(PiperError::OperationError(_))));
    assert!(matches!(
        EncoderOutputs::new(vec![tensor(&[1], &[1])]),
        Err(PiperError::OperationError(_))
    ));
    assert!(matches!(
        EncoderOutputs::from_run(Ok(vec![tensor(&[1], &[1])])),
        Err(PiperError::OperationError(_))
    ));
}

#[test]
fn two_encoder_outputs_leave_the_conditioning_empty() {
    let z = tensor(&[1, 2], &[1, 2]);
    let y_mask = tensor(&[1, 1], &[3]);
    let outputs = EncoderOutputs::new(vec![z.clone(), y_mask.clone()]).unwrap();
    assert_eq!(outputs.z, z);
    assert_eq!(outputs.y_mask, y_mask);
    assert_eq!(outputs.g, tensor(&[0], &[]));
    assert!(outputs.g.is_empty());
    assert_eq!(outputs.decoder_inputs(), vec![z.clone(), y_mask.clone()]);
    assert_eq!(outputs.into_decoder_inputs(), vec![z, y_mask]);
}

#[test]
fn the_third_encoder_output_is_the_conditioning() {
    let z = tensor(&[1, 2], &[1, 2]);
    let y_mask = tensor(&[1, 1], &[3]);
    let g = tensor(&[1, 2, 1], &[4, 5]);
    let outputs = EncoderOutputs::from_run(Ok(vec![z.clone(), y_mask.clone(), g.clone()])).unwrap();
    assert_eq!(outputs.z, z);
    assert_eq!(outputs.y_mask, y_mask);
    assert_eq!(outputs.g, g);
    assert_eq!(outputs.decoder_inputs(), vec![z.clone(), y_mask.clone(), g.clone()]);
    assert_eq!(outputs.into_decoder_inputs(), vec![z, y_mask, g]);
}

#[test]
fn an_empty_third_output_is_not_handed_to_the_decoder() {
    let z = tensor(&[1, 2], &[1, 2]);
    let y_mask = tensor(&[1, 1], &[3]);
    let g = tensor(&[1, 0], &[]);
    let outputs = EncoderOutputs::new(vec![z.clone(), y_mask.clone(), g.clone()]).unwrap();
    assert_eq!(outputs.g, g);
    assert_eq!(outputs.into_decoder_inputs(), vec![z, y_mask]);
}

#[test]
fn with_four_encoder_outputs_the_conditioning_is_empty() {
    let t = |n: u32| tensor(&[1], &[n]);
    let outputs = EncoderOutputs::new(vec![t(1), t(2), t(3), t(4)]).unwrap();
    assert_eq!(outputs.z, t(1));
    assert_eq!(outputs.y_mask, t(2));
    assert!(outputs.g.is_empty());
    assert_eq!(outputs.into_decoder_inputs(), vec![t(1), t(2)]);
}

#[test]
fn a_duplicate_of_a_tensor_is_equal_to_it() {
    let t = tensor(&[2, 2], &[1, 2, 3, 4]);
    assert_eq!(t.duplicate(), t);
    assert!(!t.is_empty());
    assert!(Tensor::empty().is_empty());
    assert_eq!(Tensor::empty().shape, vec![0]);
}

#[test]
fn an_error_carries_its_message() {
    assert_eq!(PiperError::operation("nope").message(), "nope");
    assert_eq!(PiperError::operation("nope"), PiperError::OperationError("nope".to_string()));
    assert_eq!(PiperError::config("bad"), PiperError::ConfigParseError("bad".to_string()));
    assert_eq!(PiperError::ResourceNotFound("f".to_string()).message(), "f");
    assert_eq!(PiperError::PhonemizationError("p".to_string()).message(), "p");
}

#[test]
fn the_model_takes_ids_length_and_scales_in_this_order() {
    let inputs = model_inputs(1, &parameters(None), vec![1, 0, 10, 0, 2]).unwrap();
    assert_eq!(
        inputs.into_tensors(),
        vec![
            InputTensor::Ints(IntTensor { shape: vec![1, 5], data: vec![1, 0, 10, 0, 2] }),
            InputTensor::Ints(IntTensor { shape: vec![1], data: vec![5] }),
            InputTensor::Floats(tensor(&[3], &[0x3f2a_c083, 0x3f80_0000, 0x3f4c_cccd])),
        ]
    );
}

#[test]
fn the_speaker_id_is_the_last_tensor() {
    let inputs = model_inputs(3, &parameters(Some(("ben", 2))), vec![1, 0, 2]).unwrap();
    assert_eq!(
        inputs.into_tensors(),
        vec![
            InputTensor::Ints(IntTensor { shape: vec![1, 3], data: vec![1, 0, 2] }),
            InputTensor::Ints(IntTensor { shape: vec![1], data: vec![3] }),
            InputTensor::Floats(tensor(&[3], &[0x3f2a_c083, 0x3f80_0000, 0x3f4c_cccd])),
            InputTensor::Ints(IntTensor { shape: vec![1], data: vec![2] }),
        ]
    );
}
