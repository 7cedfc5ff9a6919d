//! The plugin's audio-path state and decisions: which loaded effect serves
//! the selected mode, which frame size the stream runs at, how host blocks
//! are cut into effect frames and put back together with one frame of
//! latency, and how long the voice-activity light stays on.
//!
//! The sample arithmetic (mono mix-down, frame energy, intensity curve) and
//! the effect calls are done by the caller between the steps offered here.
use vstd::prelude::*;
use crate::ring_buffer::{pushed, FixedRingBuffer};

verus! {

/// Capacity, in samples, of the input and the output queue.
pub const RING_CAPACITY: usize = 8192;

/// Frame size used until an effect reports its own.
pub const DEFAULT_FRAME_SIZE: usize = 480;

/// Number of host blocks the voice light stays on after the last block in
/// which speech was detected (about 180 ms at 10 ms blocks).
pub const SPEECH_HOLD_BLOCKS: usize = 18;

/// The processing mode chosen by the user.
#[derive(Debug, Clone, Copy, PartialEq, Eq, Structural)]
pub enum EffectMode {
    Denoise,
    Dereverb,
    DereverbDenoise,
}

/// The three effect instances the plugin keeps.
#[derive(Debug, Clone, Copy, PartialEq, Eq, Structural)]
pub enum EffectSlot {
    Denoise,
    Dereverb,
    Combo,
}

/// The frame size of each effect instance that came up, `None` for one
/// that did not.
#[derive(Debug, Clone, Copy, PartialEq, Eq, Structural)]
pub struct LoadedEffects {
    pub denoise: Option<usize>,
    pub dereverb: Option<usize>,
    pub combo: Option<usize>,
}

/// The instance that processes audio in `mode`: the mode's own effect, or,
/// for the two dereverb modes, the denoiser when the own effect did not
/// come up. `None` when neither is available.
pub open spec fn active_slot(mode: EffectMode, loaded: LoadedEffects) -> Option<EffectSlot> {
    match mode {
        EffectMode::Denoise => if loaded.denoise is Some {
            Some(EffectSlot::Denoise)
        } else {
            None
        },
        EffectMode::Dereverb => if loaded.dereverb is Some {
            Some(EffectSlot::Dereverb)
        } else if loaded.denoise is Some {
            Some(EffectSlot::Denoise)
        } else {
            None
        },
        EffectMode::DereverbDenoise => if loaded.combo is Some {
            Some(EffectSlot::Combo)
        } else if loaded.denoise is Some {
            Some(EffectSlot::Denoise)
        } else {
            None
        },
    }
}

/// The frame size the stream runs at: that of the first instance that came
/// up, in the order denoiser, dereverb, combined.
pub open spec fn chosen_frame_size(loaded: LoadedEffects) -> Option<usize> {
    if loaded.denoise is Some {
        loaded.denoise
    } else if loaded.dereverb is Some {
        loaded.dereverb
    } else {
        loaded.combo
    }
}

/// Whether every reported frame size is positive.
pub open spec fn frame_sizes_positive(loaded: LoadedEffects) -> bool {
    &&& loaded.denoise matches Some(n) ==> n > 0
    &&& loaded.dereverb matches Some(n) ==> n > 0
    &&& loaded.combo matches Some(n) ==> n > 0
}

/// The instance that processes audio in `mode`.
pub fn select_effect(mode: EffectMode, loaded: &LoadedEffects) -> (r: Option<EffectSlot>)
    ensures
        r == active_slot(mode, *loaded),
        slot_loaded(*loaded, own_slot(mode)) ==> r == Some(own_slot(mode)),
        !slot_loaded(*loaded, own_slot(mode)) && loaded.denoise is Some ==> r == Some(
            EffectSlot::Denoise,
        ),
        !slot_loaded(*loaded, own_slot(mode)) && loaded.denoise is None ==> r is None,
{
    proof {
        lemma_effect_choice(mode, *loaded);
    }
    match mode {
        EffectMode::Denoise => if loaded.denoise.is_some() {
            Some(EffectSlot::Denoise)
        } else {
            None
        },
        EffectMode::Dereverb => if loaded.dereverb.is_some() {
            Some(EffectSlot::Dereverb)
        } else if loaded.denoise.is_some() {
            Some(EffectSlot::Denoise)
        } else {
            None
        },
        EffectMode::DereverbDenoise => if loaded.combo.is_some() {
            Some(EffectSlot::Combo)
        } else if loaded.denoise.is_some() {
            Some(EffectSlot::Denoise)
        } else {
            None
        },
    }
}

/// The frame size the stream runs at, `None` when no instance came up.
pub fn select_frame_size(loaded: &LoadedEffects) -> (r: Option<usize>)
    ensures
        r == chosen_frame_size(*loaded),
        loaded.denoise is Some ==> r == loaded.denoise,
        loaded.denoise is None && loaded.dereverb is Some ==> r == loaded.dereverb,
        loaded.denoise is None && loaded.dereverb is None ==> r == loaded.combo,
{
    if loaded.denoise.is_some() {
        loaded.denoise
    } else if loaded.dereverb.is_some() {
        loaded.dereverb
    } else {
        loaded.combo
    }
}

/// A mode has an instance to process with only if the stream has a frame
/// size; and when the denoiser serves the mode, or the dereverb instance
/// serves it without a denoiser, the stream runs at that instance's own
/// frame size.
pub proof fn lemma_selection_agrees_with_frame_size(mode: EffectMode, loaded: LoadedEffects)
    ensures
        active_slot(mode, loaded) is Some ==> chosen_frame_size(loaded) is Some,
        chosen_frame_size(loaded) is None ==> active_slot(mode, loaded) is None,
        active_slot(mode, loaded) == Some(EffectSlot::Denoise) ==> chosen_frame_size(loaded)
            == loaded.denoise,
        (active_slot(mode, loaded) == Some(EffectSlot::Dereverb) && loaded.denoise is None)
            ==> chosen_frame_size(loaded) == loaded.dereverb,
{
}

/// The instance that is each mode's own effect.
pub open spec fn own_slot(mode: EffectMode) -> EffectSlot {
    match mode {
        EffectMode::Denoise => EffectSlot::Denoise,
        EffectMode::Dereverb => EffectSlot::Dereverb,
        EffectMode::DereverbDenoise => EffectSlot::Combo,
    }
}

/// Whether instance `slot` came up.
pub open spec fn slot_loaded(loaded: LoadedEffects, slot: EffectSlot) -> bool {
    match slot {
        EffectSlot::Denoise => loaded.denoise is Some,
        EffectSlot::Dereverb => loaded.dereverb is Some,
        EffectSlot::Combo => loaded.combo is Some,
    }
}

/// A mode is served by its own effect when that came up, otherwise by the
/// denoiser when that came up, otherwise by nothing. No other instance is
/// ever chosen: the dereverb-only instance serves only the dereverb mode,
/// and the combined one only the combined mode.
pub proof fn lemma_effect_choice(mode: EffectMode, loaded: LoadedEffects)
    ensures
        slot_loaded(loaded, own_slot(mode)) ==> active_slot(mode, loaded) == Some(own_slot(mode)),
        !slot_loaded(loaded, own_slot(mode)) && loaded.denoise is Some ==> active_slot(mode, loaded)
            == Some(EffectSlot::Denoise),
        !slot_loaded(loaded, own_slot(mode)) && loaded.denoise is None ==> active_slot(
            mode,
            loaded,
        ) is None,
        active_slot(mode, loaded) matches Some(slot) ==> (slot == own_slot(mode) || slot
            == EffectSlot::Denoise) && slot_loaded(loaded, slot),
        active_slot(mode, loaded) == Some(EffectSlot::Dereverb) ==> mode == EffectMode::Dereverb,
        active_slot(mode, loaded) == Some(EffectSlot::Combo) ==> mode == EffectMode::DereverbDenoise,
{
}

/// The frame size is that of the denoiser when it came up, otherwise that of
/// the dereverb instance when it came up, otherwise that of the combined one
/// (or none); it is always the frame size of an instance that came up.
pub proof fn lemma_frame_size_choice(loaded: LoadedEffects)
    ensures
        loaded.denoise is Some ==> chosen_frame_size(loaded) == loaded.denoise,
        loaded.denoise is None && loaded.dereverb is Some ==> chosen_frame_size(loaded)
            == loaded.dereverb,
        loaded.denoise is None && loaded.dereverb is None ==> chosen_frame_size(loaded)
            == loaded.combo,
        chosen_frame_size(loaded) is Some ==> chosen_frame_size(loaded) == loaded.denoise
            || chosen_frame_size(loaded) == loaded.dereverb || chosen_frame_size(loaded)
            == loaded.combo,
{
}

/// The hold counter after a block: reloaded when the block held speech,
/// otherwise counted down to zero.
pub open spec fn next_hold(counter: nat, speech: bool) -> nat {
    if speech {
        SPEECH_HOLD_BLOCKS as nat
    } else if counter > 0 {
        (counter - 1) as nat
    } else {
        0
    }
}

/// The hold counter after `blocks` blocks without speech.
pub open spec fn hold_after_silence(counter: nat, blocks: nat) -> nat
    decreases blocks,
{
    if blocks == 0 {
        counter
    } else {
        hold_after_silence(next_hold(counter, false), (blocks - 1) as nat)
    }
}

/// A block with speech always reloads the hold to its full length, whatever
/// the counter was, so the light is on after it; a block without speech
/// counts down by one and never below zero, so the light stays on exactly
/// while blocks remain on the hold.
pub proof fn lemma_hold_step(counter: nat)
    ensures
        next_hold(counter, true) == SPEECH_HOLD_BLOCKS,
        next_hold(counter, true) > 0,
        counter > 0 ==> next_hold(counter, false) + 1 == counter,
        counter == 0 ==> next_hold(counter, false) == 0,
        next_hold(counter, false) <= counter,
{
}

/// The hold counter after a block.
pub fn next_hold_counter(counter: usize, speech: bool) -> (r: usize)
    ensures
        r == next_hold(counter as nat, speech),
        speech ==> r == SPEECH_HOLD_BLOCKS,
        !speech ==> r == (if counter > 0 {
            counter - 1
        } else {
            0
        }),
{
    if speech {
        SPEECH_HOLD_BLOCKS
    } else if counter > 0 {
        counter - 1
    } else {
        0
    }
}

/// After a block with speech, the light stays on through the next
/// seventeen blocks without speech and goes off at the eighteenth.
pub proof fn lemma_voice_hold_timing(blocks: nat)
    ensures
        hold_after_silence(next_hold(0, true), blocks) == if blocks < SPEECH_HOLD_BLOCKS {
            (SPEECH_HOLD_BLOCKS - blocks) as nat
        } else {
            0
        },
        (hold_after_silence(next_hold(0, true), blocks) > 0) == (blocks < SPEECH_HOLD_BLOCKS),
{
    lemma_hold_after_silence(SPEECH_HOLD_BLOCKS as nat, blocks);
}

proof fn lemma_hold_after_silence(counter: nat, blocks: nat)
    ensures
        hold_after_silence(counter, blocks) == if blocks < counter {
            (counter - blocks) as nat
        } else {
            0
        },
    decreases blocks,
{
    if blocks > 0 {
        lemma_hold_after_silence(next_hold(counter, false), (blocks - 1) as nat);
    }
}

/// What plugin initialization came to.
#[derive(Debug, Clone, Copy, PartialEq, Eq, Structural)]
pub enum InitStatus {
    /// The SDK library could not be loaded.
    LibraryUnavailable,
    /// The library loaded but no effect came up.
    NoEffectLoaded,
    /// At least one effect came up; audio is processed.
    Ready,
}

/// `n` samples of silence.
pub open spec fn silence_run<T>(silence: T, n: nat) -> Seq<T> {
    Seq::new(n, |i: int| silence)
}

/// The number of samples a run of `n` leaves in a fresh queue.
pub open spec fn primed_len(n: nat) -> nat {
    if n <= RING_CAPACITY {
        n
    } else {
        RING_CAPACITY as nat
    }
}

/// Priming puts exactly one frame of silence in front of the input, so the
/// two queues together hold one frame: for every frame size up to the queue
/// capacity the primed output is exactly `n` samples of silence, which is
/// the state the one-frame delay law starts from. A larger frame fills the
/// output queue to capacity.
pub proof fn lemma_primed_one_frame<T>(silence: T, n: nat)
    ensures
        n <= RING_CAPACITY ==> silence_run(silence, primed_len(n)).len() == n,
        n <= RING_CAPACITY ==> silence_run(silence, primed_len(n)) == Seq::new(n, |i: int| silence),
        n > RING_CAPACITY ==> silence_run(silence, primed_len(n)).len() == RING_CAPACITY,
        forall|i: int| 0 <= i < primed_len(n) ==> #[trigger] silence_run(silence, primed_len(n))[i]
            == silence,
{
    assert(n <= RING_CAPACITY ==> silence_run(silence, primed_len(n)) =~= Seq::new(n, |i: int| silence));
}

/// The audio-path state of the plugin: an input queue of mono samples
/// waiting to fill a frame, an output queue of processed samples waiting to
/// go back to the host, the frame size, and the voice-light hold counter.
pub struct PluginCore<T> {
    in_ring: FixedRingBuffer<T>,
    out_ring: FixedRingBuffer<T>,
    frame_size: usize,
    speech_hold_counter: usize,
    initialized_successfully: bool,
    silence: T,
}

impl<T> PluginCore<T> {
    /// Mono samples waiting to be cut into frames, oldest first.
    pub closed spec fn input(&self) -> Seq<T> {
        self.in_ring@
    }

    /// Processed samples waiting to go out, oldest first.
    pub closed spec fn output(&self) -> Seq<T> {
        self.out_ring@
    }

    /// The frame size the stream runs at.
    pub closed spec fn frame_len(&self) -> nat {
        self.frame_size as nat
    }

    /// Blocks left before the voice light goes off.
    pub closed spec fn hold(&self) -> nat {
        self.speech_hold_counter as nat
    }

    /// Whether initialization brought an effect up.
    pub closed spec fn ready(&self) -> bool {
        self.initialized_successfully
    }

    /// The sample written where there is nothing to play.
    pub closed spec fn silence(&self) -> T {
        self.silence
    }

    /// Well-formedness: both queues are sound, of the fixed capacity, and
    /// the frame size is positive.
    pub closed spec fn wf(&self) -> bool {
        &&& self.in_ring.wf()
        &&& self.out_ring.wf()
        &&& self.in_ring.capacity() == RING_CAPACITY
        &&& self.out_ring.capacity() == RING_CAPACITY
        &&& self.in_ring.silence() == self.silence
        &&& self.out_ring.silence() == self.silence
        &&& self.frame_size > 0
        &&& self.speech_hold_counter <= SPEECH_HOLD_BLOCKS
    }

    /// Neither queue ever holds more than its capacity.
    pub proof fn lemma_queues_bounded(&self)
        requires
            self.wf(),
        ensures
            self.input().len() <= RING_CAPACITY,
            self.output().len() <= RING_CAPACITY,
    {
        self.in_ring.lemma_bounded();
        self.out_ring.lemma_bounded();
    }
}

impl<T: Copy> PluginCore<T> {
    /// The state before initialization: empty queues, the default frame
    /// size, the light off, not ready.
    pub fn new(silence: T) -> (core: Self)
        ensures
            core.wf(),
            core.input() == Seq::<T>::empty(),
            core.output() == Seq::<T>::empty(),
            core.frame_len() == DEFAULT_FRAME_SIZE,
            core.hold() == 0,
            !core.ready(),
            core.silence() == silence,
    {
        PluginCore {
            in_ring: FixedRingBuffer::new(RING_CAPACITY, silence),
            out_ring: FixedRingBuffer::new(RING_CAPACITY, silence),
            frame_size: DEFAULT_FRAME_SIZE,
            speech_hold_counter: 0,
            initialized_successfully: false,
            silence,
        }
    }

    /// Empties both queues and puts one frame of silence in the output
    /// queue, so that output runs one frame behind input. Nothing is
    /// allocated.
    fn prime(&mut self)
        requires
            old(self).wf(),
        ensures
            final(self).wf(),
            final(self).input() == Seq::<T>::empty(),
            final(self).output() == silence_run(old(self).silence(), primed_len(old(self).frame_len())),
            final(self).frame_len() == old(self).frame_len(),
            final(self).hold() == old(self).hold(),
            final(self).ready() == old(self).ready(),
            final(self).silence() == old(self).silence(),
    {
        self.in_ring.clear();
        self.out_ring.clear();
        let n = self.frame_size;
        let s = self.silence;
        self.out_ring.push_repeated(s, n);
        assert(pushed(Seq::<T>::empty(), silence_run(s, n as nat), RING_CAPACITY as nat) =~= silence_run(
            s,
            primed_len(n as nat),
        ));
    }

    /// Takes the outcome of loading the SDK (`None` when the library did not
    /// load) and of bringing up the three effects. When some effect came up
    /// the stream runs at its frame size, the queues are primed with one
    /// frame of silence, the light is off and audio is processed; otherwise
    /// audio is left alone and nothing else changes.
    pub fn initialize(&mut self, loaded: Option<LoadedEffects>) -> (status: InitStatus)
        requires
            old(self).wf(),
            loaded matches Some(l) ==> frame_sizes_positive(l),
        ensures
            final(self).wf(),
            final(self).silence() == old(self).silence(),
            match loaded {
                None => status == InitStatus::LibraryUnavailable,
                Some(l) => match chosen_frame_size(l) {
                    None => status == InitStatus::NoEffectLoaded,
                    Some(n) => {
                        &&& status == InitStatus::Ready
                        &&& final(self).frame_len() == n
                        &&& final(self).input() == Seq::<T>::empty()
                        &&& final(self).output() == silence_run(old(self).silence(), primed_len(n as nat))
                        &&& n <= RING_CAPACITY ==> final(self).output().len() == n
                            && final(self).output().len() + final(self).input().len() == n
                        &&& n > RING_CAPACITY ==> final(self).output().len() == RING_CAPACITY
                        &&& final(self).hold() == 0
                    },
                },
            },
            final(self).ready() == (status == InitStatus::Ready),
            status != InitStatus::Ready ==> {
                &&& final(self).input() == old(self).input()
                &&& final(self).output() == old(self).output()
                &&& final(self).frame_len() == old(self).frame_len()
                &&& final(self).hold() == old(self).hold()
            },
    {
        self.initialized_successfully = false;
        let l = match loaded {
            None => return InitStatus::LibraryUnavailable,
            Some(l) => l,
        };
        let n = match select_frame_size(&l) {
            None => return InitStatus::NoEffectLoaded,
            Some(n) => n,
        };
        self.frame_size = n;
        self.prime();
        proof {
            lemma_primed_one_frame(self.silence, n as nat);
        }
        self.speech_hold_counter = 0;
        self.initialized_successfully = true;
        InitStatus::Ready
    }

    /// Drops all queued audio and primes the output with one frame of
    /// silence again.
    pub fn reset(&mut self)
        requires
            old(self).wf(),
        ensures
            final(self).wf(),
            final(self).input() == Seq::<T>::empty(),
            final(self).output() == silence_run(old(self).silence(), primed_len(old(self).frame_len())),
            old(self).frame_len() <= RING_CAPACITY ==> final(self).output().len() == old(
                self,
            ).frame_len() && final(self).output().len() + final(self).input().len() == old(
                self,
            ).frame_len(),
            final(self).frame_len() == old(self).frame_len(),
            final(self).hold() == old(self).hold(),
            final(self).ready() == old(self).ready(),
            final(self).silence() == old(self).silence(),
    {
        self.prime();
        proof {
            lemma_primed_one_frame(self.silence, self.frame_size as nat);
        }
    }

    /// Whether initialization brought an effect up.
    pub fn is_ready(&self) -> (b: bool)
        ensures
            b == self.ready(),
    {
        self.initialized_successfully
    }

    /// The frame size, which is also the latency the plugin reports.
    pub fn frame_size(&self) -> (n: usize)
        ensures
            n == self.frame_len(),
    {
        self.frame_size
    }

    /// Queues mono input samples; what does not fit is dropped.
    pub fn push_input(&mut self, samples: &[T])
        requires
            old(self).wf(),
        ensures
            final(self).wf(),
            final(self).input() == pushed(old(self).input(), samples@, RING_CAPACITY as nat),
            final(self).output() == old(self).output(),
            final(self).frame_len() == old(self).frame_len(),
            final(self).hold() == old(self).hold(),
            final(self).ready() == old(self).ready(),
            final(self).silence() == old(self).silence(),
    {
        self.in_ring.push_slice(samples);
    }

    /// Whether a whole frame of input is queued.
    pub fn frame_ready(&self) -> (b: bool)
        requires
            self.wf(),
        ensures
            b == (self.input().len() >= self.frame_len()),
    {
        self.in_ring.available_samples() >= self.frame_size
    }

    /// Moves the oldest `frame.len()` input samples into `frame` and returns
    /// `true`; when fewer are queued, changes nothing and returns `false`.
    pub fn take_frame(&mut self, frame: &mut [T]) -> (ok: bool)
        requires
            old(self).wf(),
        ensures
            final(self).wf(),
            ok == (old(frame)@.len() <= old(self).input().len()),
            ok ==> final(frame)@ == old(self).input().take(old(frame)@.len() as int),
            ok ==> final(self).input() == old(self).input().skip(old(frame)@.len() as int),
            !ok ==> final(frame)@ == old(frame)@ && final(self).input() == old(self).input(),
            final(self).output() == old(self).output(),
            final(self).frame_len() == old(self).frame_len(),
            final(self).hold() == old(self).hold(),
            final(self).ready() == old(self).ready(),
            final(self).silence() == old(self).silence(),
    {
        self.in_ring.read_chunk(frame)
    }

    /// Queues a processed frame for output; what does not fit is dropped.
    pub fn push_output(&mut self, frame: &[T])
        requires
            old(self).wf(),
        ensures
            final(self).wf(),
            final(self).output() == pushed(old(self).output(), frame@, RING_CAPACITY as nat),
            final(self).input() == old(self).input(),
            final(self).frame_len() == old(self).frame_len(),
            final(self).hold() == old(self).hold(),
            final(self).ready() == old(self).ready(),
            final(self).silence() == old(self).silence(),
    {
        self.out_ring.push_slice(frame);
    }

    /// Ends a host block: updates the hold counter by whether speech was
    /// detected in any frame of the block, and returns whether the voice
    /// light is on.
    pub fn finish_block(&mut self, speech_detected: bool) -> (voice_active: bool)
        requires
            old(self).wf(),
        ensures
            final(self).wf(),
            final(self).hold() == next_hold(old(self).hold(), speech_detected),
            voice_active == (final(self).hold() > 0),
            speech_detected ==> final(self).hold() == SPEECH_HOLD_BLOCKS && voice_active,
            !speech_detected ==> final(self).hold() == (if old(self).hold() > 0 {
                old(self).hold() - 1
            } else {
                0
            }),
            final(self).input() == old(self).input(),
            final(self).output() == old(self).output(),
            final(self).frame_len() == old(self).frame_len(),
            final(self).ready() == old(self).ready(),
            final(self).silence() == old(self).silence(),
    {
        self.speech_hold_counter = next_hold_counter(self.speech_hold_counter, speech_detected);
        self.speech_hold_counter > 0
    }

    /// The next output sample: the oldest queued one, or silence when the
    /// output queue has run dry.
    pub fn pop_output(&mut self) -> (sample: T)
        requires
            old(self).wf(),
        ensures
            final(self).wf(),
            old(self).output().len() > 0 ==> sample == old(self).output()[0]
                && final(self).output() == old(self).output().skip(1),
            old(self).output().len() == 0 ==> sample == old(self).silence()
                && final(self).output() == old(self).output(),
            final(self).input() == old(self).input(),
            final(self).frame_len() == old(self).frame_len(),
            final(self).hold() == old(self).hold(),
            final(self).ready() == old(self).ready(),
            final(self).silence() == old(self).silence(),
    {
        let mut out_sample: [T; 1] = [self.silence];
        if self.out_ring.read_chunk(&mut out_sample) {
            out_sample[0]
        } else {
            self.silence
        }
    }
}

/// Moving a frame unchanged from the input queue to the output queue keeps
/// the pending stream (output queue followed by input queue) as it was,
/// provided the output queue has room for the frame.
pub proof fn lemma_passthrough_frame_keeps_stream<T>(output: Seq<T>, input: Seq<T>, n: nat)
    requires
        n <= input.len(),
        output.len() + n <= RING_CAPACITY,
    ensures
        pushed(output, input.take(n as int), RING_CAPACITY as nat) + input.skip(n as int) == output
            + input,
{
    crate::ring_buffer::lemma_fifo_when_room(output, input.take(n as int), RING_CAPACITY as nat);
    assert(output + input.take(n as int) + input.skip(n as int) =~= output + input);
}

/// Queuing input that fits extends the pending stream by exactly that
/// input, and taking an output sample removes the stream's first sample:
/// with pass-through processing, what comes out is what went in, behind the
/// frame of silence that priming put in front.
pub proof fn lemma_stream_ends<T>(output: Seq<T>, input: Seq<T>, samples: Seq<T>)
    requires
        input.len() + samples.len() <= RING_CAPACITY,
    ensures
        output + pushed(input, samples, RING_CAPACITY as nat) == (output + input) + samples,
        output.len() > 0 ==> output.skip(1) + input == (output + input).skip(1),
        output.len() > 0 ==> output[0] == (output + input)[0],
{
    crate::ring_buffer::lemma_fifo_when_room(input, samples, RING_CAPACITY as nat);
    assert(output + (input + samples) =~= (output + input) + samples);
    if output.len() > 0 {
        assert(output.skip(1) + input =~= (output + input).skip(1));
    }
}

/// All blocks of `blocks`, one after the other.
pub open spec fn concat_blocks<T>(blocks: Seq<Seq<T>>) -> Seq<T>
    decreases blocks.len(),
{
    if blocks.len() == 0 {
        Seq::<T>::empty()
    } else {
        blocks[0] + concat_blocks(blocks.skip(1))
    }
}

/// What a pass-through stream plays over `blocks` when `pending` samples are
/// already waiting: each block is appended to the pending stream and as many
/// samples as it holds are taken from the front.
pub open spec fn block_outputs<T>(pending: Seq<T>, blocks: Seq<Seq<T>>) -> Seq<T>
    decreases blocks.len(),
{
    if blocks.len() == 0 {
        Seq::<T>::empty()
    } else {
        let s = pending + blocks[0];
        s.take(blocks[0].len() as int) + block_outputs(s.skip(blocks[0].len() as int), blocks.skip(1))
    }
}

/// The delay line: over any run of blocks, a pass-through stream plays the
/// samples that were pending followed by everything that came in, as many
/// as came in. Started from the frame of silence that priming leaves, the
/// output is the input delayed by exactly one frame, the latency the plugin
/// reports.
pub proof fn lemma_delay_line<T>(pending: Seq<T>, blocks: Seq<Seq<T>>)
    ensures
        block_outputs(pending, blocks) == (pending + concat_blocks(blocks)).take(
            concat_blocks(blocks).len() as int,
        ),
    decreases blocks.len(),
{
    if blocks.len() > 0 {
        let b = blocks[0];
        let rest = blocks.skip(1);
        let s = pending + b;
        let tail = s.skip(b.len() as int);
        lemma_delay_line(tail, rest);
        let f = concat_blocks(rest);
        assert(concat_blocks(blocks) == b + f);
        assert(s.take(b.len() as int) + (tail + f).take(f.len() as int) =~= (pending + (b + f)).take(
            (b + f).len() as int,
        ));
    } else {
        assert((pending + concat_blocks(blocks)).take(0) =~= Seq::<T>::empty());
    }
}

/// Whether every frame of `frames` holds exactly `n` samples.
pub open spec fn frames_of_len<T>(frames: Seq<Seq<T>>, n: nat) -> bool {
    forall|i: int| 0 <= i < frames.len() ==> (#[trigger] frames[i]).len() == n
}

proof fn lemma_concat_len<T>(frames: Seq<Seq<T>>, n: nat)
    requires
        frames_of_len(frames, n),
    ensures
        concat_blocks(frames).len() == frames.len() * n,
    decreases frames.len(),
{
    if frames.len() > 0 {
        let rest = frames.skip(1);
        assert forall|i: int| 0 <= i < rest.len() implies (#[trigger] rest[i]).len() == n by {
            assert(rest[i] == frames[i + 1]);
        }
        lemma_concat_len(rest, n);
        let k = frames.len() as int;
        assert((k - 1) * n + n == k * n) by (nonlinear_arith);
    }
}

/// One host block of `block.len()` samples, with the effect replacing every
/// frame by a processed frame of the same length.
///
/// Before the block the output queue holds the part of the output stream
/// `stream` not yet played (all of it but the first `played` samples), and
/// the two queues together hold one frame, as initialization and reset leave
/// them (`stream` is then the frame of silence). During the block: the input
/// is queued without loss; a frame is ready exactly `frames.len()` times,
/// the `i`-th one being the next `frame_len` queued input samples; every
/// processed frame fits into the output queue; and the queue never runs
/// dry while the block's samples are played. The samples played are the next
/// `block.len()` samples of the stream extended by the processed frames, and
/// afterwards the queues again hold one frame together. By induction over
/// blocks, the plugin plays one frame of silence followed by every processed
/// frame in order: the processed signal delayed by exactly the frame size
/// it reports as latency.
pub proof fn lemma_block_keeps_one_frame<T>(
    stream: Seq<T>,
    played: nat,
    input: Seq<T>,
    block: Seq<T>,
    frames: Seq<Seq<T>>,
    frame_len: nat,
)
    requires
        frame_len > 0,
        played <= stream.len(),
        stream.skip(played as int).len() + input.len() == frame_len,
        frame_len + block.len() <= RING_CAPACITY,
        frames.len() == (input.len() + block.len()) as int / (frame_len as int),
        frames_of_len(frames, frame_len),
    ensures
        ({
            let output = stream.skip(played as int);
            let queued = input + block;
            let k = frames.len() as int;
            let f = frame_len as int;
            let produced = concat_blocks(frames);
            let next_stream = stream + produced;
            let n = block.len() as int;
            &&& pushed(input, block, RING_CAPACITY as nat) == queued
            &&& forall|i: int|
                0 <= i < k ==> #[trigger] queued.skip(i * f).len() >= f && queued.skip(i * f).take(f)
                    == queued.subrange(i * f, i * f + f)
            &&& queued.skip(k * f).len() < f
            &&& forall|i: int| 0 <= i < k ==> output.len() + #[trigger] (i * f) + f <= RING_CAPACITY
            &&& produced.len() == k * f
            &&& played + n <= next_stream.len()
            &&& (output + produced).take(n) == next_stream.subrange(played as int, played + n)
            &&& (output + produced).skip(n) == next_stream.skip(played + n)
            &&& next_stream.skip(played + n).len() + queued.skip(k * f).len() == f
        }),
{
    let output = stream.skip(played as int);
    let queued = input + block;
    let k = frames.len() as int;
    let f = frame_len as int;
    let produced = concat_blocks(frames);
    let next_stream = stream + produced;
    let n = block.len() as int;
    let a = queued.len() as int;
    crate::ring_buffer::lemma_fifo_when_room(input, block, RING_CAPACITY as nat);
    lemma_concat_len(frames, frame_len);
    vstd::arithmetic::div_mod::lemma_fundamental_div_mod(a, f);
    vstd::arithmetic::div_mod::lemma_mod_pos_bound(a, f);
    assert(k * f <= a < k * f + f) by {
        assert(f * (a / f) == k * f) by (nonlinear_arith)
            requires
                k == a / f,
        ;
    }
    assert forall|i: int| 0 <= i < k implies #[trigger] queued.skip(i * f).len() >= f
        && queued.skip(i * f).take(f) == queued.subrange(i * f, i * f + f) by {
        assert(i * f + f <= k * f) by (nonlinear_arith)
            requires
                0 <= i < k,
                f > 0,
        ;
        assert(queued.skip(i * f).take(f) =~= queued.subrange(i * f, i * f + f));
    }
    assert forall|i: int| 0 <= i < k implies output.len() + #[trigger] (i * f) + f <= RING_CAPACITY by {
        assert(i * f + f <= k * f) by (nonlinear_arith)
            requires
                0 <= i < k,
                f > 0,
        ;
    }
    assert((output + produced).take(n) =~= next_stream.subrange(played as int, played + n));
    assert((output + produced).skip(n) =~= next_stream.skip(played + n));
}

} // verus!
