//! Assembly of a source's interleaved samples into stereo frames.
use vstd::prelude::*;

verus! {

/// The state of a packer: the number of channels of its source, and the samples of the frame
/// that is being assembled.
#[verifier::ext_equal]
pub struct PackerState<T> {
    pub channels: nat,
    pub pending: Seq<T>,
}

impl<T> PackerState<T> {
    /// Between two samples there is always room for one more sample of the frame.
    pub open spec fn valid(self) -> bool {
        self.pending.len() < self.channels
    }

    /// The stereo frame of a full set of channels: the first two of them, or a single one
    /// twice.
    pub open spec fn stereo(samples: Seq<T>, channels: nat) -> (T, T) {
        if channels == 1 {
            (samples[0], samples[0])
        } else {
            (samples[0], samples[1])
        }
    }

    /// The state after one more sample.
    pub open spec fn after(self, sample: T) -> Self {
        let samples = self.pending.push(sample);
        PackerState {
            channels: self.channels,
            pending: if samples.len() < self.channels {
                samples
            } else {
                Seq::empty()
            },
        }
    }

    /// The frame that one more sample completes, if it does.
    pub open spec fn frame(self, sample: T) -> Option<(T, T)> {
        let samples = self.pending.push(sample);
        if samples.len() < self.channels {
            None
        } else {
            Some(Self::stereo(samples, self.channels))
        }
    }

    /// The state after a whole run of samples.
    pub open spec fn after_all(self, samples: Seq<T>) -> Self
        decreases samples.len(),
    {
        if samples.len() == 0 {
            self
        } else {
            self.after_all(samples.drop_last()).after(samples.last())
        }
    }
}

/// Per-source channel assembler. It belongs to the playback source, so that the audio callback
/// touches no shared state for the samples of an incomplete frame.
pub struct SharedAudioFramePacker<T> {
    source_channels: usize,
    pending_frame: Vec<T>,
}

impl<T> View for SharedAudioFramePacker<T> {
    type V = PackerState<T>;

    closed spec fn view(&self) -> PackerState<T> {
        PackerState { channels: self.source_channels as nat, pending: self.pending_frame@ }
    }
}

impl<T: Copy> SharedAudioFramePacker<T> {
    /// A packer for a source with the given number of channels; none at all counts as one.
    pub fn new(channels: u16) -> (r: Self)
        ensures
            r@.channels == (if channels == 0 {
                1
            } else {
                channels as int
            }),
            r@.pending == Seq::<T>::empty(),
            r@.valid(),
    {
        let source_channels: usize = if channels == 0 {
            1
        } else {
            channels as usize
        };
        let room: usize = if source_channels < 8 {
            source_channels
        } else {
            8
        };
        SharedAudioFramePacker { source_channels, pending_frame: Vec::with_capacity(room) }
    }

    /// Takes the source's next sample, and gives the stereo frame that it completes.
    pub fn push_sample(&mut self, sample: T) -> (r: Option<(T, T)>)
        requires
            old(self)@.valid(),
        ensures
            r == old(self)@.frame(sample),
            final(self)@ == old(self)@.after(sample),
            final(self)@.valid(),
    {
        self.pending_frame.push(sample);
        if self.pending_frame.len() < self.source_channels {
            return None;
        }
        let frame = if self.source_channels == 1 {
            (self.pending_frame[0], self.pending_frame[0])
        } else {
            (self.pending_frame[0], self.pending_frame[1])
        };
        self.pending_frame.clear();
        Some(frame)
    }
}

/// Of a source with `c` channels, every `c` samples make one frame, out of the first two of
/// them (out of the one, if there is no other), and no sample of one frame reaches another.
/// `samples` is the source from its start on.
pub proof fn packer_takes_first_pair_of_each_frame<T>(channels: nat, samples: Seq<T>, sample: T)
    requires
        channels >= 1,
    ensures
        ({
            let start = PackerState { channels, pending: Seq::<T>::empty() };
            let now = start.after_all(samples);
            let all = samples.push(sample);
            let n = all.len() as int;
            &&& now.valid()
            &&& now.channels == channels
            &&& now.pending == samples.skip(samples.len() - samples.len() % channels)
            &&& n % (channels as int) != 0 ==> now.frame(sample) is None
            &&& n % (channels as int) == 0 ==> now.frame(sample) == Some(
                if channels == 1 {
                    (all[n - 1], all[n - 1])
                } else {
                    (all[n - channels], all[n - channels + 1])
                },
            )
        }),
    decreases samples.len(),
{
    let start = PackerState { channels, pending: Seq::<T>::empty() };
    let now = start.after_all(samples);
    let m = samples.len();
    let c = channels as int;
    if m == 0 {
        vstd::arithmetic::div_mod::lemma_small_mod(0, channels);
        assert(now.pending == samples.skip(0));
    } else {
        packer_takes_first_pair_of_each_frame(channels, samples.drop_last(), samples.last());
        let before = start.after_all(samples.drop_last());
        lemma_next_mod((m - 1) as int, c);
        let k = (m - 1) % channels as int;
        assert(before.pending == samples.drop_last().skip(m - 1 - k));
        assert(before.pending.push(samples.last()) == samples.skip(m - 1 - k));
    }
    lemma_next_mod(m as int, c);
    let all = samples.push(sample);
    let full = now.pending.push(sample);
    assert(full == all.skip(m - (m as int) % c));
}

/// Counting up by one moves the remainder up by one, or from the last one back to zero.
proof fn lemma_next_mod(m: int, c: int)
    requires
        m >= 0,
        c >= 1,
    ensures
        0 <= m % c < c,
        m % c <= m,
        (m + 1) % c == (if m % c + 1 == c {
            0
        } else {
            m % c + 1
        }),
{
    vstd::arithmetic::div_mod::lemma_fundamental_div_mod(m, c);
    assert(m % c <= m) by (nonlinear_arith)
        requires
            m == c * (m / c) + m % c,
            m >= 0,
            c >= 1,
            0 <= m % c < c,
    ;
    let q = m / c;
    if m % c + 1 == c {
        assert(m + 1 == (q + 1) * c + 0) by (nonlinear_arith)
            requires
                m == c * q + m % c,
                m % c + 1 == c,
        ;
        vstd::arithmetic::div_mod::lemma_fundamental_div_mod_converse(m + 1, c, q + 1, 0);
    } else {
        assert(m + 1 == q * c + (m % c + 1)) by (nonlinear_arith)
            requires
                m == c * q + m % c,
        ;
        vstd::arithmetic::div_mod::lemma_fundamental_div_mod_converse(m + 1, c, q, m % c + 1);
    }
}

} // verus!
