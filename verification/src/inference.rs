//! What goes into the inference backend and what is done with what comes
//! out. The runs themselves are the caller's.

use crate::config::{Scale, SynthesisConfig, SynthesisConfigView};
use crate::error::{inference_prefix, PiperError, PiperResult};
use vstd::prelude::*;

verus! {

/// A tensor of single-precision numbers as it travels between the library and
/// the inference backend: its shape, and its elements in row-major order,
/// each as the bit pattern of an IEEE-754 single-precision number. The library
/// routes tensors; it never reads an element.
#[derive(Debug, Clone, PartialEq, Eq)]
pub struct Tensor {
    pub shape: Vec<usize>,
    pub data: Vec<u32>,
}

impl Tensor {
    pub fn new(shape: Vec<usize>, data: Vec<u32>) -> (t: Tensor)
        ensures
            t.shape == shape,
            t.data == data,
    {
        Tensor { shape, data }
    }

    /// The tensor of one dimension that holds nothing.
    pub fn empty() -> (t: Tensor)
        ensures
            t.shape@ == seq![0usize],
            t.data@ == Seq::<u32>::empty(),
    {
        let mut shape: Vec<usize> = Vec::new();
        shape.push(0);
        Tensor { shape, data: Vec::new() }
    }

    /// Whether the tensor has no element.
    pub fn is_empty(&self) -> (b: bool)
        ensures
            b == (self.data@.len() == 0),
    {
        self.data.len() == 0
    }

    /// A tensor of the same shape and elements.
    pub fn duplicate(&self) -> (t: Tensor)
        ensures
            t.shape@ == self.shape@,
            t.data@ == self.data@,
    {
        let shape = self.shape.clone();
        let data = self.data.clone();
        assert(shape@ =~= self.shape@);
        assert(data@ =~= self.data@);
        Tensor { shape, data }
    }
}

/// What the model, or the encoder of a split model, is run on.
#[derive(Debug, Clone, PartialEq, Eq)]
pub struct ModelInputs {
    /// The input ids, the one row of a matrix of shape `input_shape`.
    pub input: Vec<i64>,
    /// One row, as many columns as there are ids.
    pub input_shape: Vec<usize>,
    /// The number of ids, as a tensor of one element.
    pub input_lengths: Vec<i64>,
    /// Noise scale, length scale and noise weight, in this order.
    pub scales: Vec<Scale>,
    /// The speaker's id as a tensor of one element. Only a voice of more than
    /// one speaker is given it.
    pub sid: Option<Vec<i64>>,
}

/// A tensor of 64-bit integers: its shape, and its elements in row-major
/// order.
#[derive(Debug, Clone, PartialEq, Eq)]
pub struct IntTensor {
    pub shape: Vec<usize>,
    pub data: Vec<i64>,
}

/// One of the tensors that a model is run on.
#[derive(Debug, Clone, PartialEq, Eq)]
pub enum InputTensor {
    Ints(IntTensor),
    Floats(Tensor),
}

/// The bit patterns of the scales, in their order.
pub open spec fn scale_bits(scales: Seq<Scale>) -> Seq<u32> {
    Seq::new(scales.len(), |i: int| scales[i].bits)
}

/// Whether `tensors` are the inputs in the order in which the model takes
/// them: the ids as a matrix of one row, their number, the scales, and last,
/// where there is one, the speaker's id; the last three as tensors of one
/// dimension.
pub open spec fn is_input_order_of(tensors: Seq<InputTensor>, inputs: ModelInputs) -> bool {
    &&& tensors.len() == if inputs.sid is Some {
        4int
    } else {
        3int
    }
    &&& tensors[0] matches InputTensor::Ints(t) && t.shape@ == inputs.input_shape@ && t.data@
        == inputs.input@
    &&& tensors[1] matches InputTensor::Ints(t) && t.shape@ == seq![
        inputs.input_lengths@.len() as usize,
    ] && t.data@ == inputs.input_lengths@
    &&& tensors[2] matches InputTensor::Floats(t) && t.shape@ == seq![
        inputs.scales@.len() as usize,
    ] && t.data@ == scale_bits(inputs.scales@)
    &&& inputs.sid matches Some(sid) ==> (tensors[3] matches InputTensor::Ints(t) && t.shape@
        == seq![sid@.len() as usize] && t.data@ == sid@)
}

fn one_dimension(len: usize) -> (shape: Vec<usize>)
    ensures
        shape@ == seq![len],
{
    let mut shape: Vec<usize> = Vec::new();
    shape.push(len);
    shape
}

impl ModelInputs {
    /// The inputs as the tensors that the model takes, in the order in which
    /// it takes them.
    pub fn into_tensors(self) -> (tensors: Vec<InputTensor>)
        ensures
            is_input_order_of(tensors@, self),
    {
        let mut bits: Vec<u32> = Vec::new();
        let mut i: usize = 0;
        while i < self.scales.len()
            invariant
                0 <= i <= self.scales@.len(),
                bits@ == scale_bits(self.scales@.take(i as int)),
            decreases self.scales@.len() - i,
        {
            bits.push(self.scales[i].to_bits());
            assert(bits@ =~= scale_bits(self.scales@.take(i as int + 1)));
            i += 1;
        }
        assert(self.scales@.take(i as int) =~= self.scales@);
        let lengths_shape = one_dimension(self.input_lengths.len());
        let scales_shape = one_dimension(self.scales.len());
        let mut tensors: Vec<InputTensor> = Vec::new();
        tensors.push(InputTensor::Ints(IntTensor { shape: self.input_shape, data: self.input }));
        tensors.push(
            InputTensor::Ints(IntTensor { shape: lengths_shape, data: self.input_lengths }),
        );
        tensors.push(InputTensor::Floats(Tensor { shape: scales_shape, data: bits }));
        match self.sid {
            Some(sid) => {
                let sid_shape = one_dimension(sid.len());
                tensors.push(InputTensor::Ints(IntTensor { shape: sid_shape, data: sid }));
            },
            None => {},
        }
        tensors
    }
}

/// The speaker id that the model is given: for a voice of more than one
/// speaker, the selected speaker's, or 0 where none was selected; for any
/// other voice, none.
pub open spec fn speaker_id_input(num_speakers: u32, synth: SynthesisConfigView) -> Option<i64> {
    if num_speakers > 1 {
        match synth.speaker {
            Some((_, sid)) => Some(sid),
            None => Some(0i64),
        }
    } else {
        None
    }
}

/// Whether `inputs` is what the model is run on for the given ids, under the
/// given parameters.
pub open spec fn is_model_inputs_for(
    inputs: ModelInputs,
    num_speakers: u32,
    synth: SynthesisConfigView,
    ids: Seq<i64>,
) -> bool {
    &&& inputs.input@ == ids
    &&& inputs.input_shape@ == seq![1usize, ids.len() as usize]
    &&& inputs.input_lengths@ == seq![ids.len() as i64]
    &&& inputs.scales@ == seq![synth.noise_scale, synth.length_scale, synth.noise_w]
    &&& match speaker_id_input(num_speakers, synth) {
        Some(sid) => inputs.sid is Some && inputs.sid->0@ == seq![sid],
        None => inputs.sid is None,
    }
}

/// The largest number of ids that a model can be told of.
pub open spec fn max_input_len() -> int {
    i64::MAX as int
}

/// Builds the tensors the model is run on: the ids as one row, their number,
/// the three scales, and, for a voice of more than one speaker, the speaker's
/// id. Fails with an `OperationError` only where the number of ids does not
/// fit the tensor that holds it.
pub fn model_inputs(num_speakers: u32, synth: &SynthesisConfig, input_phonemes: Vec<i64>) -> (r:
    PiperResult<ModelInputs>)
    ensures
        match r {
            Ok(inputs) => input_phonemes@.len() <= max_input_len() && is_model_inputs_for(
                inputs,
                num_speakers,
                synth@,
                input_phonemes@,
            ),
            Err(e) => input_phonemes@.len() > max_input_len() && e is OperationError,
        },
{
    let input_len: usize = input_phonemes.len();
    if input_len as u64 > 0x7fff_ffff_ffff_ffff {
        return Err(PiperError::operation("The input is too long for the model."));
    }
    let mut input_lengths: Vec<i64> = Vec::new();
    input_lengths.push(input_len as i64);
    let mut input_shape: Vec<usize> = Vec::new();
    input_shape.push(1);
    input_shape.push(input_len);
    let mut scales: Vec<Scale> = Vec::new();
    scales.push(synth.noise_scale);
    scales.push(synth.length_scale);
    scales.push(synth.noise_w);
    let sid: Option<Vec<i64>> = if num_speakers > 1 {
        let sid: i64 = match &synth.speaker {
            Some((_, sid)) => *sid,
            None => 0,
        };
        let mut tensor: Vec<i64> = Vec::new();
        tensor.push(sid);
        Some(tensor)
    } else {
        None
    };
    let inputs = ModelInputs {
        input: input_phonemes,
        input_shape,
        input_lengths,
        scales,
        sid,
    };
    proof {
        assert(inputs.input_shape@ =~= seq![1usize, input_phonemes@.len() as usize]);
        assert(inputs.input_lengths@ =~= seq![input_phonemes@.len() as i64]);
        assert(inputs.scales@ =~= seq![
            synth@.noise_scale,
            synth@.length_scale,
            synth@.noise_w,
        ]);
        if num_speakers > 1 {
            assert(inputs.sid->0@ =~= seq![speaker_id_input(num_speakers, synth@)->0]);
        }
    }
    Ok(inputs)
}

/// What a run of the backend gave: its output tensors in their order, or the
/// backend's message where it failed.
pub type BackendRun = Result<Vec<Tensor>, String>;

/// Picks the audio out of a run of the model: the first output tensor. A
/// failed run is an `InferenceError` with the backend's message; a run
/// without any output is an `OperationError`.
pub fn audio_output(run: BackendRun) -> (r: PiperResult<Tensor>)
    ensures
        match run {
            Ok(outputs) => if outputs@.len() > 0 {
                r == Ok::<Tensor, PiperError>(outputs@[0])
            } else {
                r is Err && r->Err_0 is OperationError
            },
            Err(message) => r matches Err(PiperError::InferenceError(m)) && m@
                == inference_prefix() + message@,
        },
{
    match run {
        Ok(outputs) => {
            let mut outputs = outputs;
            if outputs.len() == 0 {
                return Err(PiperError::operation("The model returned no output."));
            }
            Ok(outputs.swap_remove(0))
        },
        Err(message) => Err(PiperError::inference(message.as_str())),
    }
}

/// What one run of the encoder leaves for the decoder: the latent `z`, the
/// mask `y_mask`, and the speaker conditioning `g`, which is empty for a voice
/// without speaker conditioning. The value owns its tensors; they are
/// released once, when it is dropped or turned into the decoder's inputs.
#[derive(Debug, PartialEq, Eq)]
pub struct EncoderOutputs {
    pub z: Tensor,
    pub y_mask: Tensor,
    pub g: Tensor,
}

/// Whether `outputs` is what `values`, the encoder's output tensors, are
/// captured as: the first as `z`, the second as `y_mask`, and, where there are
/// exactly three, the third as `g`; else `g` is empty.
pub open spec fn captures(outputs: EncoderOutputs, values: Seq<Tensor>) -> bool {
    &&& values.len() >= 2
    &&& outputs.z == values[0]
    &&& outputs.y_mask == values[1]
    &&& if values.len() == 3 {
        outputs.g == values[2]
    } else {
        outputs.g.shape@ == seq![0usize] && outputs.g.data@ == Seq::<u32>::empty()
    }
}

/// The tensors the decoder is run on: `z`, `y_mask`, and `g` unless it is
/// empty.
pub open spec fn decoder_input_tensors(outputs: EncoderOutputs) -> Seq<Tensor> {
    if outputs.g.data@.len() > 0 {
        seq![outputs.z, outputs.y_mask, outputs.g]
    } else {
        seq![outputs.z, outputs.y_mask]
    }
}

impl EncoderOutputs {
    /// Captures the output tensors of the encoder. Fewer than two are an
    /// `OperationError`.
    pub fn new(values: Vec<Tensor>) -> (r: PiperResult<EncoderOutputs>)
        ensures
            match r {
                Ok(outputs) => captures(outputs, values@),
                Err(e) => values@.len() < 2 && e is OperationError,
            },
    {
        let mut values = values;
        let n: usize = values.len();
        if n < 2 {
            return Err(PiperError::operation("The encoder returned fewer than two outputs."));
        }
        let z = values.remove(0);
        let y_mask = values.remove(0);
        let g = if n == 3 {
            values.remove(0)
        } else {
            Tensor::empty()
        };
        Ok(EncoderOutputs { z, y_mask, g })
    }

    /// Captures a run of the encoder. A failed run is an `InferenceError` with
    /// the backend's message.
    pub fn from_run(run: BackendRun) -> (r: PiperResult<EncoderOutputs>)
        ensures
            match run {
                Ok(values) => match r {
                    Ok(outputs) => captures(outputs, values@),
                    Err(e) => values@.len() < 2 && e is OperationError,
                },
                Err(message) => r matches Err(PiperError::InferenceError(m)) && m@
                    == inference_prefix() + message@,
            },
    {
        match run {
            Ok(values) => EncoderOutputs::new(values),
            Err(message) => Err(PiperError::inference(message.as_str())),
        }
    }

    /// Copies of the tensors the decoder is run on. The encoder's outputs stay
    /// with their owner, so that one run of the encoder can serve the decoder
    /// again.
    pub fn decoder_inputs(&self) -> (inputs: Vec<Tensor>)
        ensures
            inputs@.len() == decoder_input_tensors(*self).len(),
            forall|i: int|
                0 <= i < inputs@.len() ==> (#[trigger] inputs@[i]).shape@
                    == decoder_input_tensors(*self)[i].shape@ && inputs@[i].data@
                    == decoder_input_tensors(*self)[i].data@,
    {
        let mut inputs: Vec<Tensor> = Vec::new();
        inputs.push(self.z.duplicate());
        inputs.push(self.y_mask.duplicate());
        if !self.g.is_empty() {
            inputs.push(self.g.duplicate());
        }
        inputs
    }

    /// The tensors the decoder is run on, handed over for good.
    pub fn into_decoder_inputs(self) -> (inputs: Vec<Tensor>)
        ensures
            inputs@ == decoder_input_tensors(self),
    {
        let mut inputs: Vec<Tensor> = Vec::new();
        let with_g = !self.g.is_empty();
        inputs.push(self.z);
        inputs.push(self.y_mask);
        if with_g {
            inputs.push(self.g);
        }
        assert(inputs@ =~= decoder_input_tensors(self));
        inputs
    }
}

} // verus!
