//! The shared memory region that external visualizers read.
//!
//! A header is followed by a ring of interleaved stereo frames. A sample is kept as the bit
//! pattern of its 32-bit floating-point value, so that silence is the pattern zero. The writer
//! changes the region by single stores only, in an order that it chooses.
use vstd::prelude::*;

verus! {

/// The characters `SPRK`, the first in the lowest byte.
pub const MAGIC: u32 = 0x4B52_5053;

/// The version of the region's layout.
pub const VERSION: u32 = 1;

/// Frames are stereo, whatever the source is.
pub const OUTPUT_CHANNELS: u32 = 2;

/// Ten seconds at 48 kHz.
pub const DEFAULT_CAPACITY_FRAMES: u32 = 480_000;

/// The number of samples in the ring.
pub const SAMPLE_COUNT: usize = 960_000;

/// The number of bytes of the header: seven 32-bit words and three 64-bit words, then seven
/// reserved 32-bit words.
pub const HEADER_SIZE: u32 = 80;

/// The header of the region.
#[derive(Clone, Copy, Debug, PartialEq, Eq)]
pub struct SparkAudioHeader {
    pub magic: u32,
    pub version: u32,
    pub header_size: u32,
    pub capacity_frames: u32,
    pub channels: u32,
    pub sample_rate: u32,
    pub write_frame: u64,
    pub total_frames: u64,
    pub generation: u64,
    pub active: u32,
    pub reserved: [u32; 7],
}

/// One store to the region.
#[derive(Clone, Copy, Debug, PartialEq, Eq)]
pub enum RegionStore {
    /// The whole header.
    Header(SparkAudioHeader),
    /// Zero to the first `count` samples.
    ClearSamples { count: usize },
    /// One sample of the ring.
    Sample { index: usize, bits: u32 },
    /// The header's `sample_rate`.
    SampleRate(u32),
    /// The header's `write_frame`.
    WriteFrame(u64),
    /// The header's `total_frames`.
    TotalFrames(u64),
    /// The header's `generation`.
    Generation(u64),
    /// The header's `active`.
    Active(u32),
}

/// The words in which a visualizer leaves its requests.
#[derive(Clone, Copy, Debug, PartialEq, Eq)]
pub struct ControlWords {
    pub transport_generation: u32,
    pub transport_state: u32,
    pub visualizer_generation: u32,
    pub visualizer_delta: u32,
}

/// What a region holds.
#[verifier::ext_equal]
pub struct RegionState {
    pub header: SparkAudioHeader,
    pub samples: Seq<u32>,
}

impl RegionState {
    /// The region after one store.
    pub open spec fn after(self, store: RegionStore) -> RegionState {
        let h = self.header;
        match store {
            RegionStore::Header(header) => RegionState { header, ..self },
            RegionStore::ClearSamples { count } => RegionState {
                samples: Seq::new(
                    self.samples.len(),
                    |i: int|
                        if i < count {
                            0
                        } else {
                            self.samples[i]
                        },
                ),
                ..self
            },
            RegionStore::Sample { index, bits } => RegionState {
                samples: self.samples.update(index as int, bits),
                ..self
            },
            RegionStore::SampleRate(sample_rate) => RegionState {
                header: SparkAudioHeader { sample_rate, ..h },
                ..self
            },
            RegionStore::WriteFrame(write_frame) => RegionState {
                header: SparkAudioHeader { write_frame, ..h },
                ..self
            },
            RegionStore::TotalFrames(total_frames) => RegionState {
                header: SparkAudioHeader { total_frames, ..h },
                ..self
            },
            RegionStore::Generation(generation) => RegionState {
                header: SparkAudioHeader { generation, ..h },
                ..self
            },
            RegionStore::Active(active) => RegionState {
                header: SparkAudioHeader { active, ..h },
                ..self
            },
        }
    }

    /// The region after a run of stores.
    pub open spec fn after_all(self, stores: Seq<RegionStore>) -> RegionState
        decreases stores.len(),
    {
        if stores.len() == 0 {
            self
        } else {
            self.after(stores.first()).after_all(stores.drop_first())
        }
    }

    /// Both samples of one slot of the ring.
    pub open spec fn slot(self, index: int) -> (u32, u32) {
        (self.samples[2 * index], self.samples[2 * index + 1])
    }

    /// The words in which a visualizer leaves its requests.
    pub open spec fn control_words(self) -> ControlWords {
        ControlWords {
            transport_generation: self.header.reserved@[0],
            transport_state: self.header.reserved@[1],
            visualizer_generation: self.header.reserved@[2],
            visualizer_delta: self.header.reserved@[3],
        }
    }
}

/// Whether a store stays inside the region.
pub open spec fn fits(store: RegionStore) -> bool {
    match store {
        RegionStore::ClearSamples { count } => count <= SAMPLE_COUNT,
        RegionStore::Sample { index, .. } => index < SAMPLE_COUNT,
        _ => true,
    }
}

/// The number of bytes of the region.
pub fn shared_byte_len() -> (r: usize)
    ensures
        r == HEADER_SIZE + DEFAULT_CAPACITY_FRAMES * OUTPUT_CHANNELS * 4,
{
    HEADER_SIZE as usize + DEFAULT_CAPACITY_FRAMES as usize * OUTPUT_CHANNELS as usize * 4
}

/// A region in the process's own memory, for platforms without shared memory.
pub struct HeapRegion {
    header: SparkAudioHeader,
    samples: Vec<u32>,
}

impl View for HeapRegion {
    type V = RegionState;

    closed spec fn view(&self) -> RegionState {
        RegionState { header: self.header, samples: self.samples@ }
    }
}

impl HeapRegion {
    /// Whether the ring has its full length.
    pub open spec fn wf(&self) -> bool {
        self@.samples.len() == SAMPLE_COUNT
    }

    /// A region of zeros.
    pub fn open() -> (r: Self)
        ensures
            r.wf(),
            r@.header == (SparkAudioHeader {
                magic: 0,
                version: 0,
                header_size: 0,
                capacity_frames: 0,
                channels: 0,
                sample_rate: 0,
                write_frame: 0,
                total_frames: 0,
                generation: 0,
                active: 0,
                reserved: [0, 0, 0, 0, 0, 0, 0],
            }),
            forall|i: int| 0 <= i < SAMPLE_COUNT ==> #[trigger] r@.samples[i] == 0,
    {
        HeapRegion {
            header: SparkAudioHeader {
                magic: 0,
                version: 0,
                header_size: 0,
                capacity_frames: 0,
                channels: 0,
                sample_rate: 0,
                write_frame: 0,
                total_frames: 0,
                generation: 0,
                active: 0,
                reserved: [0, 0, 0, 0, 0, 0, 0],
            },
            samples: vec![0; SAMPLE_COUNT],
        }
    }

    /// Carries out one store.
    pub fn store(&mut self, store: RegionStore)
        requires
            old(self).wf(),
            fits(store),
        ensures
            final(self).wf(),
            final(self)@ == old(self)@.after(store),
    {
        match store {
            RegionStore::Header(header) => {
                self.header = header;
            },
            RegionStore::ClearSamples { count } => {
                self.clear(count);
            },
            RegionStore::Sample { index, bits } => {
                self.samples[index] = bits;
            },
            RegionStore::SampleRate(sample_rate) => {
                self.header.sample_rate = sample_rate;
            },
            RegionStore::WriteFrame(write_frame) => {
                self.header.write_frame = write_frame;
            },
            RegionStore::TotalFrames(total_frames) => {
                self.header.total_frames = total_frames;
            },
            RegionStore::Generation(generation) => {
                self.header.generation = generation;
            },
            RegionStore::Active(active) => {
                self.header.active = active;
            },
        }
    }

    /// Writes zero to the first `count` samples.
    fn clear(&mut self, count: usize)
        requires
            old(self).wf(),
            count <= SAMPLE_COUNT,
        ensures
            final(self)@ == old(self)@.after(RegionStore::ClearSamples { count }),
    {
        let ghost before = self@;
        let mut i: usize = 0;
        while i < count
            invariant
                i <= count <= SAMPLE_COUNT,
                self@.header == before.header,
                self@.samples.len() == SAMPLE_COUNT == before.samples.len(),
                forall|j: int|
                    0 <= j < SAMPLE_COUNT ==> #[trigger] self@.samples[j] == (if j < i {
                        0
                    } else {
                        before.samples[j]
                    }),
            decreases count - i,
        {
            self.samples[i] = 0;
            i = i + 1;
        }
    }

    /// The header as it stands.
    pub fn header(&self) -> (r: SparkAudioHeader)
        ensures
            r == self@.header,
    {
        self.header
    }

    /// One sample of the ring.
    pub fn sample(&self, index: usize) -> (r: u32)
        requires
            index < self@.samples.len(),
        ensures
            r == self@.samples[index as int],
    {
        self.samples[index]
    }
}

/// The words of a header in which a visualizer leaves its requests.
pub fn control_words(header: &SparkAudioHeader) -> (r: ControlWords)
    ensures
        r == (RegionState { header: *header, samples: Seq::empty() }).control_words(),
{
    ControlWords {
        transport_generation: header.reserved[0],
        transport_state: header.reserved[1],
        visualizer_generation: header.reserved[2],
        visualizer_delta: header.reserved[3],
    }
}

} // verus!
