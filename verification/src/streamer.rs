//! The audio of one utterance in chunks of bounded size.

use crate::error::{PiperError, PiperResult};
use crate::inference::{decoder_input_tensors, EncoderOutputs, Tensor};
use crate::wave::RawWaveSamples;
use vstd::prelude::*;

verus! {

/// Where a streamer stands.
#[derive(Debug, Clone, Copy, PartialEq, Eq, Structural)]
pub enum StreamerState {
    /// It holds the encoder's outputs; nothing was decoded yet.
    Ready,
    /// It holds decoded samples of which some were not emitted yet.
    Emitting,
    /// Everything was emitted, or the stream was given up. It stays so.
    Exhausted,
}

/// What a pull on the streamer asks of the caller, or hands it.
#[derive(Debug, PartialEq, Eq)]
pub enum StreamerStep {
    /// Run the decoder on these tensors once, render what it returns, and
    /// hand the samples to `accept_decoded`; or call `abort` if that fails.
    Decode(Vec<Tensor>),
    /// The next chunk of audio.
    Chunk(RawWaveSamples),
    /// There is nothing more, and there will not be.
    Done,
}

/// Where the chunk that is emitted at `cursor` begins: `padding` samples
/// before the cursor, or at the first sample where there are not so many.
pub open spec fn chunk_begin(cursor: int, padding: int) -> int {
    if cursor >= padding {
        cursor - padding
    } else {
        0
    }
}

/// Where the chunk that is emitted at `cursor` ends, and the cursor after it:
/// `chunk_size` samples on, or at the end of the samples where there are not
/// so many left.
pub open spec fn chunk_end(cursor: int, chunk_size: int, total: int) -> int {
    if cursor + chunk_size <= total {
        cursor + chunk_size
    } else {
        total
    }
}

/// The chunk that is emitted at `cursor`.
pub open spec fn chunk_from(samples: Seq<i16>, chunk_size: int, padding: int, cursor: int) -> Seq<
    i16,
> {
    samples.subrange(
        chunk_begin(cursor, padding),
        chunk_end(cursor, chunk_size, samples.len() as int),
    )
}

/// The chunks that are emitted from `cursor` on, in their order.
pub open spec fn emitted_from(samples: Seq<i16>, chunk_size: int, padding: int, cursor: int) -> Seq<
    Seq<i16>,
>
    decreases samples.len() - cursor,
{
    if chunk_size <= 0 || cursor < 0 || cursor >= samples.len() {
        Seq::empty()
    } else {
        seq![chunk_from(samples, chunk_size, padding, cursor)] + emitted_from(
            samples,
            chunk_size,
            padding,
            chunk_end(cursor, chunk_size, samples.len() as int),
        )
    }
}

/// All the chunks that a stream over `samples` emits.
pub open spec fn chunks(samples: Seq<i16>, chunk_size: int, padding: int) -> Seq<Seq<i16>> {
    emitted_from(samples, chunk_size, padding, 0)
}

/// The number of chunks of `chunk_size` samples that `total` samples make,
/// the last one possibly shorter.
pub open spec fn chunk_count(total: int, chunk_size: int) -> int
    recommends
        chunk_size > 0,
{
    (total + chunk_size - 1) / chunk_size
}

/// The samples of each chunk, for a list of chunks.
pub open spec fn chunk_views(chunks: Seq<RawWaveSamples>) -> Seq<Seq<i16>> {
    Seq::new(chunks.len(), |i: int| chunks[i]@)
}

/// The `k`-th chunk of a stream, counted from zero, said outright: it ends
/// `chunk_size` samples after the `k`-th multiple of the chunk size, or at the
/// end of the samples, and begins `padding` samples before that multiple, or
/// at the first sample.
pub open spec fn chunk_at(samples: Seq<i16>, chunk_size: int, padding: int, k: int) -> Seq<i16> {
    chunk_from(samples, chunk_size, padding, k * chunk_size)
}

/// Between two multiples of the chunk size the count is fixed.
proof fn lemma_chunk_count_between(total: int, chunk_size: int, j: int)
    requires
        chunk_size > 0,
        j * chunk_size < total <= (j + 1) * chunk_size,
    ensures
        chunk_count(total, chunk_size) == j + 1,
{
    assert((j + 1) * chunk_size == j * chunk_size + chunk_size) by (nonlinear_arith);
    let r = total - 1 - j * chunk_size;
    assert(total + chunk_size - 1 == (j + 1) * chunk_size + r);
    vstd::arithmetic::div_mod::lemma_fundamental_div_mod_converse(
        total + chunk_size - 1,
        chunk_size,
        j + 1,
        r,
    );
}

/// At a multiple of the chunk size the count is the multiplier.
proof fn lemma_chunk_count_exact(chunk_size: int, j: int)
    requires
        chunk_size > 0,
    ensures
        chunk_count(j * chunk_size, chunk_size) == j,
{
    vstd::arithmetic::div_mod::lemma_fundamental_div_mod_converse(
        j * chunk_size + chunk_size - 1,
        chunk_size,
        j,
        chunk_size - 1,
    );
}

proof fn lemma_emitted_from_multiple(samples: Seq<i16>, chunk_size: int, padding: int, j: int)
    requires
        chunk_size > 0,
        j >= 0,
        j * chunk_size <= samples.len(),
    ensures
        emitted_from(samples, chunk_size, padding, j * chunk_size).len() == chunk_count(
            samples.len() as int,
            chunk_size,
        ) - j,
        forall|i: int|
            0 <= i < emitted_from(samples, chunk_size, padding, j * chunk_size).len()
                ==> #[trigger] emitted_from(samples, chunk_size, padding, j * chunk_size)[i]
                == chunk_at(samples, chunk_size, padding, j + i),
    decreases samples.len() - j * chunk_size,
{
    let total = samples.len() as int;
    let cursor = j * chunk_size;
    let here = emitted_from(samples, chunk_size, padding, cursor);
    assert(cursor >= 0) by (nonlinear_arith)
        requires
            j >= 0,
            chunk_size > 0,
            cursor == j * chunk_size,
    ;
    assert((j + 1) * chunk_size == cursor + chunk_size) by (nonlinear_arith)
        requires
            cursor == j * chunk_size,
    ;
    if cursor == total {
        lemma_chunk_count_exact(chunk_size, j);
    } else if cursor + chunk_size <= total {
        lemma_emitted_from_multiple(samples, chunk_size, padding, j + 1);
        let rest = emitted_from(samples, chunk_size, padding, (j + 1) * chunk_size);
        assert(here == seq![chunk_from(samples, chunk_size, padding, cursor)] + rest);
        assert forall|i: int| 0 <= i < here.len() implies #[trigger] here[i] == chunk_at(
            samples,
            chunk_size,
            padding,
            j + i,
        ) by {
            if i > 0 {
                assert(here[i] == rest[i - 1]);
                assert(j + 1 + (i - 1) == j + i);
            }
        }
    } else {
        lemma_chunk_count_between(total, chunk_size, j);
        let rest = emitted_from(samples, chunk_size, padding, total);
        assert(rest =~= Seq::<Seq<i16>>::empty());
        assert(here =~= seq![chunk_from(samples, chunk_size, padding, cursor)]);
    }
}

/// A stream over `total` samples in chunks of `chunk_size` emits as many
/// chunks as `total / chunk_size` rounded up, whatever the padding.
pub proof fn lemma_chunk_count(samples: Seq<i16>, chunk_size: int, padding: int)
    requires
        chunk_size > 0,
    ensures
        chunks(samples, chunk_size, padding).len() == chunk_count(
            samples.len() as int,
            chunk_size,
        ),
{
    lemma_emitted_from_multiple(samples, chunk_size, padding, 0);
    assert(0 * chunk_size == 0);
}

/// The `k`-th chunk of a stream covers the samples from the `k`-th multiple
/// of the chunk size, less the padding, to the next multiple, each end kept
/// within the samples.
pub proof fn lemma_chunk_content(samples: Seq<i16>, chunk_size: int, padding: int, k: int)
    requires
        chunk_size > 0,
        0 <= k < chunks(samples, chunk_size, padding).len(),
    ensures
        chunks(samples, chunk_size, padding)[k] == chunk_at(samples, chunk_size, padding, k),
        k * chunk_size < samples.len(),
{
    lemma_emitted_from_multiple(samples, chunk_size, padding, 0);
    assert(0 * chunk_size == 0);
    let total = samples.len() as int;
    if k * chunk_size >= total {
        assert(k * chunk_size + chunk_size - 1 >= total + chunk_size - 1);
        assert((k * chunk_size + chunk_size - 1) / chunk_size >= (total + chunk_size - 1)
            / chunk_size) by {
            vstd::arithmetic::div_mod::lemma_div_is_ordered(
                total + chunk_size - 1,
                k * chunk_size + chunk_size - 1,
                chunk_size,
            );
        }
        lemma_chunk_count_exact(chunk_size, k);
        assert(false);
    }
}

/// Without padding every chunk but the last holds exactly `chunk_size`
/// samples, and the last holds what is left: at least one sample and at most
/// `chunk_size`.
pub proof fn lemma_chunk_lengths(samples: Seq<i16>, chunk_size: int, k: int)
    requires
        chunk_size > 0,
        0 <= k < chunks(samples, chunk_size, 0).len(),
    ensures
        k < chunks(samples, chunk_size, 0).len() - 1 ==> chunks(samples, chunk_size, 0)[k].len()
            == chunk_size,
        k == chunks(samples, chunk_size, 0).len() - 1 ==> 0 < chunks(
            samples,
            chunk_size,
            0,
        )[k].len() <= chunk_size && chunks(samples, chunk_size, 0)[k].len() == samples.len() - k
            * chunk_size,
{
    let total = samples.len() as int;
    let n = chunks(samples, chunk_size, 0).len() as int;
    lemma_chunk_count(samples, chunk_size, 0);
    lemma_chunk_content(samples, chunk_size, 0, k);
    assert((k + 1) * chunk_size == k * chunk_size + chunk_size) by (nonlinear_arith);
    assert(k * chunk_size >= 0) by (nonlinear_arith)
        requires
            k >= 0,
            chunk_size > 0,
    ;
    if k * chunk_size + chunk_size < total {
        if k == n - 1 {
            lemma_chunk_content(samples, chunk_size, 0, k);
            assert((k + 1) * chunk_size < total);
            // One more chunk would start within the samples.
            lemma_count_exceeds(total, chunk_size, k + 1);
        }
    } else if k * chunk_size + chunk_size == total {
        lemma_chunk_count_exact(chunk_size, k + 1);
    } else {
        lemma_chunk_count_between(total, chunk_size, k);
    }
}

/// As long as a multiple of the chunk size lies within the samples, the count
/// is beyond its multiplier.
proof fn lemma_count_exceeds(total: int, chunk_size: int, j: int)
    requires
        chunk_size > 0,
        j >= 0,
        j * chunk_size < total,
    ensures
        chunk_count(total, chunk_size) > j,
{
    lemma_chunk_count_exact(chunk_size, j);
    vstd::arithmetic::div_mod::lemma_div_is_ordered(
        j * chunk_size + chunk_size - 1,
        total + chunk_size - 1,
        chunk_size,
    );
    if chunk_count(total, chunk_size) == j {
        // total + chunk_size - 1 < (j + 1) * chunk_size would need total <= j * chunk_size
        vstd::arithmetic::div_mod::lemma_fundamental_div_mod(total + chunk_size - 1, chunk_size);
        vstd::arithmetic::div_mod::lemma_mod_pos_bound(total + chunk_size - 1, chunk_size);
        assert(chunk_size * j == j * chunk_size) by (nonlinear_arith);
    }
}

/// Without padding the chunks of a stream, put end to end from the `k`-th
/// on, are the samples from the `k`-th multiple of the chunk size on: nothing
/// is lost and nothing comes twice.
pub proof fn lemma_chunks_cover(samples: Seq<i16>, chunk_size: int, cursor: int)
    requires
        chunk_size > 0,
        0 <= cursor <= samples.len(),
    ensures
        emitted_from(samples, chunk_size, 0, cursor).flatten() == samples.subrange(
            cursor,
            samples.len() as int,
        ),
    decreases samples.len() - cursor,
{
    let total = samples.len() as int;
    let here = emitted_from(samples, chunk_size, 0, cursor);
    if cursor >= total {
        assert(here =~= Seq::<Seq<i16>>::empty());
        assert(here.flatten() =~= Seq::<i16>::empty());
        assert(samples.subrange(cursor, total) =~= Seq::<i16>::empty());
    } else {
        let next = chunk_end(cursor, chunk_size, total);
        let first = chunk_from(samples, chunk_size, 0, cursor);
        let rest = emitted_from(samples, chunk_size, 0, next);
        lemma_chunks_cover(samples, chunk_size, next);
        assert(here == seq![first] + rest);
        assert(here.flatten() =~= first + rest.flatten()) by {
            assert(here.first() == first);
            assert(here.drop_first() =~= rest);
        }
        assert(first + samples.subrange(next, total) =~= samples.subrange(cursor, total));
    }
}

/// A chunk with padding is the chunk without padding, preceded by the
/// samples just before it: as many as the padding asks for, or all that came
/// before where those are fewer.
pub proof fn lemma_chunk_padding(samples: Seq<i16>, chunk_size: int, padding: int, cursor: int)
    requires
        chunk_size > 0,
        padding >= 0,
        0 <= cursor < samples.len(),
    ensures
        ({
            let carried = if padding <= cursor {
                padding
            } else {
                cursor
            };
            chunk_from(samples, chunk_size, padding, cursor) == samples.subrange(
                cursor - carried,
                cursor,
            ) + chunk_from(samples, chunk_size, 0, cursor)
        }),
{
    let carried = if padding <= cursor {
        padding
    } else {
        cursor
    };
    assert(chunk_from(samples, chunk_size, padding, cursor) =~= samples.subrange(
        cursor - carried,
        cursor,
    ) + chunk_from(samples, chunk_size, 0, cursor));
}

/// A stream that was exhausted emits nothing, however often it is pulled: it
/// cannot be started again.
pub proof fn lemma_exhausted_stays_empty(
    samples: Seq<i16>,
    chunk_size: int,
    padding: int,
    cursor: int,
)
    requires
        cursor >= samples.len(),
    ensures
        emitted_from(samples, chunk_size, padding, cursor) == Seq::<Seq<i16>>::empty(),
{
}


/// Emits the audio of one utterance in chunks of bounded size. It is fed by
/// one run of the decoder, which is made on the first pull, and slices what
/// that run gave; each chunk after the first is preceded by up to
/// `chunk_padding` samples of the chunk before it. The sequence is finite and
/// cannot be started again.
///
/// The streamer owns the encoder's outputs until they are decoded, the stream
/// is given up, or the streamer is dropped.
pub struct SpeechStreamer {
    encoder_outputs: Option<EncoderOutputs>,
    samples: Vec<i16>,
    cursor: usize,
    chunk_size: u32,
    chunk_padding: u32,
}

fn copy_range(samples: &Vec<i16>, begin: usize, end: usize) -> (r: Vec<i16>)
    requires
        begin <= end <= samples@.len(),
    ensures
        r@ == samples@.subrange(begin as int, end as int),
{
    let mut r: Vec<i16> = Vec::new();
    let mut i: usize = begin;
    while i < end
        invariant
            begin <= i <= end <= samples@.len(),
            r@ == samples@.subrange(begin as int, i as int),
        decreases end - i,
    {
        r.push(samples[i]);
        assert(r@ =~= samples@.subrange(begin as int, i as int + 1));
        i += 1;
    }
    r
}

impl SpeechStreamer {
    #[verifier::type_invariant]
    spec fn inv(self) -> bool {
        &&& self.chunk_size > 0
        &&& self.cursor <= self.samples@.len()
        &&& self.encoder_outputs is Some ==> self.samples@.len() == 0
    }

    /// The encoder's outputs, while the streamer holds them.
    pub closed spec fn spec_encoder_outputs(&self) -> Option<EncoderOutputs> {
        self.encoder_outputs
    }

    /// The decoded samples; none before the decoder was run.
    pub closed spec fn spec_samples(&self) -> Seq<i16> {
        self.samples@
    }

    /// How many samples were passed.
    pub closed spec fn spec_cursor(&self) -> int {
        self.cursor as int
    }

    pub closed spec fn spec_chunk_size(&self) -> int {
        self.chunk_size as int
    }

    pub closed spec fn spec_chunk_padding(&self) -> int {
        self.chunk_padding as int
    }

    pub open spec fn spec_state(&self) -> StreamerState {
        if self.spec_encoder_outputs() is Some {
            StreamerState::Ready
        } else if self.spec_cursor() < self.spec_samples().len() {
            StreamerState::Emitting
        } else {
            StreamerState::Exhausted
        }
    }

    /// The chunks that are still to come, as far as they are known: none
    /// before the decoder was run, and none after the last.
    pub open spec fn spec_remaining(&self) -> Seq<Seq<i16>> {
        if self.spec_encoder_outputs() is Some {
            Seq::empty()
        } else {
            emitted_from(
                self.spec_samples(),
                self.spec_chunk_size(),
                self.spec_chunk_padding(),
                self.spec_cursor(),
            )
        }
    }

    /// A streamer over the outputs of one run of the encoder. A chunk size of
    /// zero is an `OperationError`.
    pub fn new(encoder_outputs: EncoderOutputs, chunk_size: u32, chunk_padding: u32) -> (r:
        PiperResult<SpeechStreamer>)
        ensures
            match r {
                Ok(s) => {
                    &&& chunk_size > 0
                    &&& s.spec_state() == StreamerState::Ready
                    &&& s.spec_encoder_outputs() == Some(encoder_outputs)
                    &&& s.spec_samples() == Seq::<i16>::empty()
                    &&& s.spec_cursor() == 0
                    &&& s.spec_chunk_size() == chunk_size
                    &&& s.spec_chunk_padding() == chunk_padding
                },
                Err(e) => chunk_size == 0 && e is OperationError,
            },
    {
        if chunk_size == 0 {
            return Err(PiperError::operation("The chunk size of a stream must not be zero."));
        }
        Ok(
            SpeechStreamer {
                encoder_outputs: Some(encoder_outputs),
                samples: Vec::new(),
                cursor: 0,
                chunk_size,
                chunk_padding,
            },
        )
    }

    pub fn state(&self) -> (s: StreamerState)
        ensures
            s == self.spec_state(),
    {
        if self.encoder_outputs.is_some() {
            StreamerState::Ready
        } else if self.cursor < self.samples.len() {
            StreamerState::Emitting
        } else {
            StreamerState::Exhausted
        }
    }

    /// The number of samples that each pull advances by. It is never zero.
    pub fn chunk_size(&self) -> (c: u32)
        ensures
            c == self.spec_chunk_size(),
            c > 0,
    {
        proof {
            use_type_invariant(self);
        }
        self.chunk_size
    }

    /// The number of samples of the chunk before it that a chunk starts with.
    pub fn chunk_padding(&self) -> (p: u32)
        ensures
            p == self.spec_chunk_padding(),
    {
        self.chunk_padding
    }

    /// One pull. Before the decoder was run it asks for that run, and changes
    /// nothing. While samples are left it hands out the next chunk and moves
    /// on by the chunk size. After the last chunk it says so, whenever asked.
    pub fn next_step(&mut self) -> (step: StreamerStep)
        ensures
            final(self).spec_chunk_size() == old(self).spec_chunk_size(),
            final(self).spec_chunk_padding() == old(self).spec_chunk_padding(),
            final(self).spec_samples() == old(self).spec_samples(),
            final(self).spec_encoder_outputs() == old(self).spec_encoder_outputs(),
            match old(self).spec_state() {
                StreamerState::Ready => {
                    &&& step matches StreamerStep::Decode(inputs)
                    &&& inputs@.len() == decoder_input_tensors(
                        old(self).spec_encoder_outputs()->0,
                    ).len()
                    &&& forall|i: int|
                        0 <= i < inputs@.len() ==> (#[trigger] inputs@[i]).shape@
                            == decoder_input_tensors(
                            old(self).spec_encoder_outputs()->0,
                        )[i].shape@ && inputs@[i].data@ == decoder_input_tensors(
                            old(self).spec_encoder_outputs()->0,
                        )[i].data@
                    &&& final(self).spec_cursor() == old(self).spec_cursor()
                },
                StreamerState::Emitting => {
                    &&& step matches StreamerStep::Chunk(chunk)
                    &&& chunk@ == chunk_from(
                        old(self).spec_samples(),
                        old(self).spec_chunk_size(),
                        old(self).spec_chunk_padding(),
                        old(self).spec_cursor(),
                    )
                    &&& final(self).spec_cursor() == chunk_end(
                        old(self).spec_cursor(),
                        old(self).spec_chunk_size(),
                        old(self).spec_samples().len() as int,
                    )
                    &&& old(self).spec_remaining() == seq![chunk@] + final(self).spec_remaining()
                },
                StreamerState::Exhausted => {
                    &&& step is Done
                    &&& final(self).spec_cursor() == old(self).spec_cursor()
                    &&& final(self).spec_state() == StreamerState::Exhausted
                },
            },
    {
        proof {
            use_type_invariant(&*self);
        }
        match &self.encoder_outputs {
            Some(outputs) => {
                return StreamerStep::Decode(outputs.decoder_inputs());
            },
            None => {},
        }
        let total: usize = self.samples.len();
        if self.cursor >= total {
            return StreamerStep::Done;
        }
        let size: usize = self.chunk_size as usize;
        let padding: usize = self.chunk_padding as usize;
        let begin: usize = if self.cursor >= padding {
            self.cursor - padding
        } else {
            0
        };
        let end: usize = if total - self.cursor >= size {
            self.cursor + size
        } else {
            total
        };
        let chunk = copy_range(&self.samples, begin, end);
        self.cursor = end;
        StreamerStep::Chunk(RawWaveSamples::new(chunk))
    }

    /// Takes the samples that the one run of the decoder gave. The encoder's
    /// outputs are released, and the chunks are from now on cut from these
    /// samples. A streamer that was not waiting for them is left as it is.
    pub fn accept_decoded(&mut self, samples: RawWaveSamples)
        ensures
            final(self).spec_chunk_size() == old(self).spec_chunk_size(),
            final(self).spec_chunk_padding() == old(self).spec_chunk_padding(),
            final(self).spec_encoder_outputs() is None,
            final(self).spec_cursor() == old(self).spec_cursor(),
            old(self).spec_state() == StreamerState::Ready ==> final(self).spec_samples()
                == samples@ && final(self).spec_cursor() == 0,
            old(self).spec_state() != StreamerState::Ready ==> final(self).spec_samples() == old(
                self,
            ).spec_samples(),
    {
        proof {
            use_type_invariant(&*self);
        }
        if self.encoder_outputs.is_some() {
            self.encoder_outputs = None;
            self.samples = samples.into_vec();
        }
    }

    /// Gives the stream up, as after a failed run of the decoder. The
    /// encoder's outputs are released, and no further chunk is emitted.
    pub fn abort(&mut self)
        ensures
            final(self).spec_chunk_size() == old(self).spec_chunk_size(),
            final(self).spec_chunk_padding() == old(self).spec_chunk_padding(),
            final(self).spec_samples() == old(self).spec_samples(),
            final(self).spec_encoder_outputs() is None,
            final(self).spec_state() == StreamerState::Exhausted,
            final(self).spec_remaining() == Seq::<Seq<i16>>::empty(),
    {
        proof {
            use_type_invariant(&*self);
        }
        self.encoder_outputs = None;
        self.cursor = self.samples.len();
    }

    /// Pulls until nothing is left, and returns the chunks in their order.
    /// Before the decoder was run there is nothing to pull, and the streamer
    /// is left waiting; otherwise it ends exhausted.
    pub fn drain(&mut self) -> (emitted: Vec<RawWaveSamples>)
        ensures
            final(self).spec_chunk_size() == old(self).spec_chunk_size(),
            final(self).spec_chunk_padding() == old(self).spec_chunk_padding(),
            final(self).spec_samples() == old(self).spec_samples(),
            final(self).spec_encoder_outputs() == old(self).spec_encoder_outputs(),
            chunk_views(emitted@) == old(self).spec_remaining(),
            final(self).spec_remaining() == Seq::<Seq<i16>>::empty(),
            old(self).spec_state() == StreamerState::Ready ==> final(self).spec_state()
                == StreamerState::Ready,
            old(self).spec_state() != StreamerState::Ready ==> final(self).spec_state()
                == StreamerState::Exhausted,
    {
        let mut emitted: Vec<RawWaveSamples> = Vec::new();
        proof {
            use_type_invariant(&*self);
            assert(chunk_views(emitted@) =~= Seq::<Seq<i16>>::empty());
        }
        if self.encoder_outputs.is_some() {
            return emitted;
        }
        while self.cursor < self.samples.len()
            invariant
                self.spec_chunk_size() == old(self).spec_chunk_size(),
                self.spec_chunk_padding() == old(self).spec_chunk_padding(),
                self.spec_samples() == old(self).spec_samples(),
                self.spec_encoder_outputs() == old(self).spec_encoder_outputs(),
                self.spec_encoder_outputs() is None,
                self.spec_cursor() <= self.spec_samples().len(),
                self.spec_chunk_size() > 0,
                old(self).spec_remaining() == chunk_views(emitted@) + self.spec_remaining(),
            decreases self.spec_samples().len() - self.spec_cursor(),
        {
            let ghost before = self.spec_remaining();
            let ghost emitted_before = chunk_views(emitted@);
            match self.next_step() {
                StreamerStep::Chunk(chunk) => {
                    emitted.push(chunk);
                    proof {
                        assert(chunk_views(emitted@) =~= emitted_before + seq![chunk@]);
                        assert(old(self).spec_remaining() =~= chunk_views(emitted@)
                            + self.spec_remaining());
                    }
                },
                _ => {},
            }
            proof {
                use_type_invariant(&*self);
            }
        }
        proof {
            assert(self.spec_remaining() =~= Seq::<Seq<i16>>::empty());
            assert(old(self).spec_remaining() =~= chunk_views(emitted@));
        }
        emitted
    }
}

} // verus!
