//! The writer of a shared audio region.
//!
//! The writer keeps the counters and decides every store to the region; whoever holds the
//! region carries the stores out, in the order in which they are given.
use crate::region::{
    ControlWords, RegionStore, SparkAudioHeader, DEFAULT_CAPACITY_FRAMES, HEADER_SIZE, MAGIC,
    OUTPUT_CHANNELS, SAMPLE_COUNT, VERSION,
};
use vstd::prelude::*;

verus! {

/// The requests of a visualizer that are new since the last poll.
#[derive(Clone, Copy, Debug, PartialEq, Eq)]
pub struct SharedAudioControl {
    /// Whether to play or to pause.
    pub playback: Option<bool>,
    /// By how many visualizers to move on.
    pub visualizer_delta: i32,
}

/// A writer's counters.
#[derive(Clone, Copy, Debug, PartialEq, Eq)]
#[verifier::ext_equal]
pub struct WriterState {
    pub sample_rate: u32,
    pub write_frame: u64,
    pub generation: u64,
    pub last_transport_control: u32,
    pub last_visualizer_control: u32,
}

/// The number after `n`, which is zero after the largest.
pub open spec fn next(n: u64) -> u64 {
    if n == u64::MAX {
        0
    } else {
        (n + 1) as u64
    }
}

/// The generation that a region shows while it changes from generation `n` to the next: the one
/// at the other side of the counter's range, where no generation near `n` lies.
pub open spec fn passing(n: u64) -> u64 {
    if n < 0x8000_0000_0000_0000 {
        (n + 0x8000_0000_0000_0000) as u64
    } else {
        (n - 0x8000_0000_0000_0000) as u64
    }
}

/// The ring's slot for a frame: its number, cut to the machine's word, modulo the capacity.
pub open spec fn slot_of(frame: u64) -> int {
    (frame as usize) as int % DEFAULT_CAPACITY_FRAMES as int
}

/// The signed number whose two's complement bit pattern is `word`.
pub open spec fn signed(word: u32) -> int {
    if word < 0x8000_0000 {
        word as int
    } else {
        word - 0x1_0000_0000
    }
}

/// `n`, moved into the range from -16 to 16.
pub open spec fn clamped(n: int) -> int {
    if n < -16 {
        -16
    } else if n > 16 {
        16
    } else {
        n
    }
}

impl WriterState {
    /// The counters of a new writer.
    pub open spec fn initial() -> WriterState {
        WriterState {
            sample_rate: 44_100,
            write_frame: 0,
            generation: 1,
            last_transport_control: 0,
            last_visualizer_control: 0,
        }
    }

    /// The header of a region whose writer has these counters and has written no frame.
    pub open spec fn fresh_header(self) -> SparkAudioHeader {
        SparkAudioHeader {
            magic: MAGIC,
            version: VERSION,
            header_size: HEADER_SIZE,
            capacity_frames: DEFAULT_CAPACITY_FRAMES,
            channels: OUTPUT_CHANNELS,
            sample_rate: self.sample_rate,
            write_frame: 0,
            total_frames: 0,
            generation: self.generation,
            active: 1,
            reserved: [0, 0, 0, 0, 0, 0, 0],
        }
    }

    /// The stores that set a region up.
    pub open spec fn setup_stores(self) -> Seq<RegionStore> {
        seq![
            RegionStore::Header(self.fresh_header()),
            RegionStore::ClearSamples { count: SAMPLE_COUNT },
        ]
    }

    /// The counters after a reset.
    pub open spec fn after_reset(self) -> WriterState {
        WriterState { write_frame: 0, generation: next(self.generation), ..self }
    }

    /// The stores of a reset. The first announces that the region changes, and the last that it
    /// is whole again, in its next generation.
    pub open spec fn reset_stores(self) -> Seq<RegionStore> {
        seq![
            RegionStore::Generation(passing(self.generation)),
            RegionStore::ClearSamples { count: SAMPLE_COUNT },
            RegionStore::SampleRate(self.sample_rate),
            RegionStore::WriteFrame(0),
            RegionStore::TotalFrames(0),
            RegionStore::Active(1),
            RegionStore::Generation(next(self.generation)),
        ]
    }

    /// The rate that a request for `sample_rate` sets: at least one.
    pub open spec fn effective_rate(sample_rate: u32) -> u32 {
        if sample_rate == 0 {
            1
        } else {
            sample_rate
        }
    }

    /// The counters with another sample rate.
    pub open spec fn with_rate(self, sample_rate: u32) -> WriterState {
        WriterState { sample_rate, ..self }
    }

    /// The counters after a change of format, which resets the stream if the rate is new.
    pub open spec fn after_format(self, sample_rate: u32) -> WriterState {
        let rate = Self::effective_rate(sample_rate);
        if self.sample_rate == rate {
            self
        } else {
            self.with_rate(rate).after_reset()
        }
    }

    /// The counters after one frame.
    pub open spec fn after_frame(self) -> WriterState {
        WriterState {
            write_frame: next(self.write_frame),
            generation: next(self.generation),
            ..self
        }
    }

    /// The stores of one frame: its samples, then the counters that tell of it. The first store
    /// announces that the region changes, and the last that it is whole again, in its next
    /// generation.
    pub open spec fn frame_stores(self, left: u32, right: u32) -> Seq<RegionStore> {
        let slot = slot_of(self.write_frame);
        seq![
            RegionStore::Generation(passing(self.generation)),
            RegionStore::Sample { index: (2 * slot) as usize, bits: left },
            RegionStore::Sample { index: (2 * slot + 1) as usize, bits: right },
            RegionStore::WriteFrame(next(self.write_frame)),
            RegionStore::TotalFrames(next(self.write_frame)),
            RegionStore::Generation(next(self.generation)),
        ]
    }

    /// The store that tells readers that the writer is gone.
    pub open spec fn close_store(self) -> RegionStore {
        RegionStore::Active(0)
    }

    /// The counters after a poll that read these words.
    pub open spec fn after_poll(self, words: ControlWords) -> WriterState {
        WriterState {
            last_transport_control: words.transport_generation,
            last_visualizer_control: words.visualizer_generation,
            ..self
        }
    }

    /// Whether to play or to pause, if the words hold a new request that says so.
    pub open spec fn polled_playback(self, words: ControlWords) -> Option<bool> {
        if words.transport_generation == self.last_transport_control {
            None
        } else if words.transport_state == 1 {
            Some(true)
        } else if words.transport_state == 2 {
            Some(false)
        } else {
            None
        }
    }

    /// By how many visualizers to move on, if the words hold a new request for it.
    pub open spec fn polled_delta(self, words: ControlWords) -> int {
        if words.visualizer_generation == self.last_visualizer_control {
            0
        } else {
            clamped(signed(words.visualizer_delta))
        }
    }
}

/// The writing end of a shared audio region.
pub struct SharedAudioWriter {
    capacity_frames: usize,
    sample_rate: u32,
    write_frame: u64,
    generation: u64,
    last_transport_control: u32,
    last_visualizer_control: u32,
}

impl View for SharedAudioWriter {
    type V = WriterState;

    closed spec fn view(&self) -> WriterState {
        WriterState {
            sample_rate: self.sample_rate,
            write_frame: self.write_frame,
            generation: self.generation,
            last_transport_control: self.last_transport_control,
            last_visualizer_control: self.last_visualizer_control,
        }
    }
}

impl SharedAudioWriter {
    #[verifier::type_invariant]
    spec fn has_default_capacity(&self) -> bool {
        self.capacity_frames == DEFAULT_CAPACITY_FRAMES
    }

    /// A writer at the start of a stream, with the stores that set its region up.
    pub fn new() -> (r: (Self, [RegionStore; 2]))
        ensures
            r.0@ == WriterState::initial(),
            r.1@ == WriterState::initial().setup_stores(),
    {
        let writer = SharedAudioWriter {
            capacity_frames: DEFAULT_CAPACITY_FRAMES as usize,
            sample_rate: 44_100,
            write_frame: 0,
            generation: 1,
            last_transport_control: 0,
            last_visualizer_control: 0,
        };
        let stores = writer.initialize_header();
        (writer, stores)
    }

    /// A writer that takes up at the given counters.
    pub fn resume(state: WriterState) -> (r: Self)
        ensures
            r@ == state,
    {
        SharedAudioWriter {
            capacity_frames: DEFAULT_CAPACITY_FRAMES as usize,
            sample_rate: state.sample_rate,
            write_frame: state.write_frame,
            generation: state.generation,
            last_transport_control: state.last_transport_control,
            last_visualizer_control: state.last_visualizer_control,
        }
    }

    /// The counters, at which another writer can take up.
    pub fn counters(&self) -> (r: WriterState)
        ensures
            r == self@,
    {
        WriterState {
            sample_rate: self.sample_rate,
            write_frame: self.write_frame,
            generation: self.generation,
            last_transport_control: self.last_transport_control,
            last_visualizer_control: self.last_visualizer_control,
        }
    }

    /// The stores that set the region up.
    fn initialize_header(&self) -> (r: [RegionStore; 2])
        ensures
            r@ == self@.setup_stores(),
    {
        proof {
            use_type_invariant(self);
        }
        let header = SparkAudioHeader {
            magic: MAGIC,
            version: VERSION,
            header_size: HEADER_SIZE,
            capacity_frames: self.capacity_frames as u32,
            channels: OUTPUT_CHANNELS,
            sample_rate: self.sample_rate,
            write_frame: 0,
            total_frames: 0,
            generation: self.generation,
            active: 1,
            reserved: [0, 0, 0, 0, 0, 0, 0],
        };
        [RegionStore::Header(header), self.clear_audio()]
    }

    /// The store that silences the whole ring.
    fn clear_audio(&self) -> (r: RegionStore)
        ensures
            r == (RegionStore::ClearSamples { count: SAMPLE_COUNT }),
    {
        proof {
            use_type_invariant(self);
        }
        RegionStore::ClearSamples { count: self.capacity_frames * OUTPUT_CHANNELS as usize }
    }

    /// Sets the sample rate. A new rate starts the stream over, by the stores that are given
    /// back. The number of channels has no effect: frames are stereo.
    pub fn set_format(&mut self, _channels: u16, sample_rate: u32) -> (r: Option<[RegionStore; 7]>)
        ensures
            final(self)@ == old(self)@.after_format(sample_rate),
            match r {
                None => old(self)@.sample_rate == WriterState::effective_rate(sample_rate),
                Some(stores) => {
                    &&& old(self)@.sample_rate != WriterState::effective_rate(sample_rate)
                    &&& stores@ == old(self)@.with_rate(
                        WriterState::effective_rate(sample_rate),
                    ).reset_stores()
                },
            },
    {
        proof {
            use_type_invariant(&*self);
        }
        let sample_rate: u32 = effective_rate(sample_rate);
        if self.sample_rate != sample_rate {
            self.sample_rate = sample_rate;
            Some(self.reset())
        } else {
            None
        }
    }

    /// Starts the stream over: no frames, and a new generation.
    pub fn reset(&mut self) -> (r: [RegionStore; 7])
        ensures
            final(self)@ == old(self)@.after_reset(),
            r@ == old(self)@.reset_stores(),
    {
        proof {
            use_type_invariant(&*self);
        }
        let passing_generation: u64 = passing_of(self.generation);
        let next_generation: u64 = self.generation.wrapping_add(1);
        self.generation = next_generation;
        self.write_frame = 0;
        [
            RegionStore::Generation(passing_generation),
            self.clear_audio(),
            RegionStore::SampleRate(self.sample_rate),
            RegionStore::WriteFrame(0),
            RegionStore::TotalFrames(0),
            RegionStore::Active(1),
            RegionStore::Generation(next_generation),
        ]
    }

    /// Publishes one stereo frame, given by the bit patterns of its samples.
    pub fn push_frame(&mut self, left: u32, right: u32) -> (r: [RegionStore; 6])
        ensures
            final(self)@ == old(self)@.after_frame(),
            r@ == old(self)@.frame_stores(left, right),
    {
        proof {
            use_type_invariant(&*self);
        }
        let frame: u64 = self.write_frame;
        let total: u64 = frame.wrapping_add(1);
        self.write_frame = total;
        let passing_generation: u64 = passing_of(self.generation);
        let next_generation: u64 = self.generation.wrapping_add(1);
        self.generation = next_generation;
        let frame_index: usize = (frame as usize) % self.capacity_frames;
        proof {
            vstd::arithmetic::div_mod::lemma_mod_bound(
                (frame as usize) as int,
                DEFAULT_CAPACITY_FRAMES as int,
            );
        }
        assert(frame_index == slot_of(frame));
        assert(frame_index * OUTPUT_CHANNELS as usize == 2 * frame_index) by (nonlinear_arith)
            requires
                OUTPUT_CHANNELS == 2,
        ;
        let sample_offset: usize = frame_index * OUTPUT_CHANNELS as usize;
        [
            RegionStore::Generation(passing_generation),
            RegionStore::Sample { index: sample_offset, bits: left },
            RegionStore::Sample { index: sample_offset + 1, bits: right },
            RegionStore::WriteFrame(total),
            RegionStore::TotalFrames(total),
            RegionStore::Generation(next_generation),
        ]
    }

    /// Takes note of the words that a visualizer has left, and gives the requests among them
    /// that are new.
    pub fn poll_control(&mut self, words: ControlWords) -> (r: SharedAudioControl)
        ensures
            final(self)@ == old(self)@.after_poll(words),
            r.playback == old(self)@.polled_playback(words),
            r.visualizer_delta == old(self)@.polled_delta(words),
    {
        proof {
            use_type_invariant(&*self);
        }
        let last_transport: u32 = self.last_transport_control;
        self.last_transport_control = words.transport_generation;
        let playback = if words.transport_generation != last_transport {
            match words.transport_state {
                1 => Some(true),
                2 => Some(false),
                _ => None,
            }
        } else {
            None
        };
        let last_visualizer: u32 = self.last_visualizer_control;
        self.last_visualizer_control = words.visualizer_generation;
        let visualizer_delta: i32 = if words.visualizer_generation != last_visualizer {
            clamp_delta(as_signed(words.visualizer_delta))
        } else {
            0
        };
        SharedAudioControl { playback, visualizer_delta }
    }

    /// The store that tells readers that the writer is gone.
    pub fn close(&self) -> (r: RegionStore)
        ensures
            r == self@.close_store(),
    {
        RegionStore::Active(0)
    }
}

/// The rate that a request for `sample_rate` sets.
pub fn effective_rate(sample_rate: u32) -> (r: u32)
    ensures
        r == WriterState::effective_rate(sample_rate),
{
    if sample_rate == 0 {
        1
    } else {
        sample_rate
    }
}

/// The generation that a region shows while it changes.
fn passing_of(generation: u64) -> (r: u64)
    ensures
        r == passing(generation),
{
    generation.wrapping_add(0x8000_0000_0000_0000)
}

/// The signed number with the same bits.
fn as_signed(word: u32) -> (r: i32)
    ensures
        r == signed(word),
{
    let r: i32 = word as i32;
    assert(word < 0x8000_0000 ==> r == word) by (bit_vector)
        requires
            r == word as i32,
    ;
    assert(word >= 0x8000_0000 ==> r == word - 0x1_0000_0000) by (bit_vector)
        requires
            r == word as i32,
    ;
    r
}

/// Moves a request into the range from -16 to 16.
fn clamp_delta(n: i32) -> (r: i32)
    ensures
        r == clamped(n as int),
{
    if n < -16 {
        -16
    } else if n > 16 {
        16
    } else {
        n
    }
}

} // verus!
