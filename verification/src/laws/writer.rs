//! What the operations of a writer are for.
//!
//! Counters are words of 64 bits: after the largest number comes zero.
use crate::region::{ControlWords, RegionState, RegionStore, SparkAudioHeader};
use crate::writer::{effective_rate, SharedAudioControl, SharedAudioWriter, WriterState};
use vstd::prelude::*;

verus! {

/// Whether one number of a 64-bit counter is `count` behind another.
pub open spec fn moved_on(before: u64, count: int, after: u64) -> bool {
    after as int == (before + count) % 0x1_0000_0000_0000_0000
}

/// Whether all samples of a region are zero.
pub open spec fn is_silence(r: RegionState) -> bool {
    forall|i: int| 0 <= i < r.samples.len() ==> #[trigger] r.samples[i] == 0
}

/// A new writer counts from zero, at 44.1 kHz and in the first generation, and sets its region up
/// with a header that says so and with a silent ring.
pub proof fn new_writer_sets_up_its_region(
    r: (SharedAudioWriter, [RegionStore; 2]),
    before: RegionState,
)
    requires
        call_ensures(SharedAudioWriter::new, (), r),
        before.samples.len() == 960_000,
    ensures
        r.0@.sample_rate == 44_100,
        r.0@.write_frame == 0,
        r.0@.generation == 1,
        r.0@.last_transport_control == 0,
        r.0@.last_visualizer_control == 0,
        ({
            let after = before.after_all(r.1@);
            let h = after.header;
            &&& after.samples.len() == 960_000
            &&& is_silence(after)
            &&& h.magic == 'S' as int + 0x100 * ('P' as int) + 0x1_0000 * ('R' as int)
                + 0x100_0000 * ('K' as int)
            &&& h.version == 1
            &&& h.header_size == 80
            &&& h.capacity_frames == 10 * 48_000
            &&& h.channels == 2
            &&& h.sample_rate == 44_100
            &&& h.write_frame == 0
            &&& h.total_frames == 0
            &&& h.generation == 1
            &&& h.active == 1
            &&& forall|i: int| 0 <= i < 7 ==> #[trigger] h.reserved@[i] == 0
        }),
{
    let all = r.1@;
    reveal_with_fuel(RegionState::after_all, 3);
    assert(all.drop_first().drop_first() == Seq::<RegionStore>::empty());
}

/// A writer that takes up at some counters has those counters.
pub proof fn writers_take_up_counters(
    state: WriterState,
    resumed: SharedAudioWriter,
    w: &SharedAudioWriter,
    counters: WriterState,
)
    requires
        call_ensures(SharedAudioWriter::resume, (state,), resumed),
        call_ensures(SharedAudioWriter::counters, (w,), counters),
    ensures
        resumed@ == state,
        counters == w@,
{
}

/// A rate is taken as it is, but for zero, which counts as one.
pub proof fn rates_are_kept(sample_rate: u32, r: u32)
    requires
        call_ensures(effective_rate, (sample_rate,), r),
    ensures
        sample_rate >= 1 ==> r == sample_rate,
        sample_rate == 0 ==> r == 1,
{
}

/// Whether a region's stream has been started over, by a writer whose counters were `before`: the
/// ring is silent, no frames are counted, the rate is the given one, and the generation is the
/// next. The rest of the header is as it was.
pub open spec fn is_started_over(
    before: WriterState,
    rate: int,
    old_region: RegionState,
    new_region: RegionState,
) -> bool {
    let h = old_region.header;
    let k = new_region.header;
    &&& new_region.samples.len() == old_region.samples.len()
    &&& is_silence(new_region)
    &&& k.sample_rate == rate
    &&& k.write_frame == 0
    &&& k.total_frames == 0
    &&& moved_on(before.generation, 1, k.generation)
    &&& k.active == 1
    &&& k.magic == h.magic
    &&& k.version == h.version
    &&& k.header_size == h.header_size
    &&& k.capacity_frames == h.capacity_frames
    &&& k.channels == h.channels
    &&& k.reserved == h.reserved
}

/// Whether a writer's counters have been set back by a start: no frames, the next generation, and
/// the given rate. Which requests it has seen stays.
pub open spec fn is_set_back(before: WriterState, rate: int, after: WriterState) -> bool {
    &&& after.sample_rate == rate
    &&& after.write_frame == 0
    &&& moved_on(before.generation, 1, after.generation)
    &&& after.last_transport_control == before.last_transport_control
    &&& after.last_visualizer_control == before.last_visualizer_control
}

/// What seven stores do that announce a change, clear the ring, set the rate and both counts, and
/// announce the next generation.
proof fn lemma_start(w: WriterState, region: RegionState, stores: Seq<RegionStore>)
    requires
        region.samples.len() == 960_000,
        stores == w.reset_stores(),
    ensures
        is_started_over(w, w.sample_rate as int, region, region.after_all(stores)),
{
    reveal_with_fuel(RegionState::after_all, 8);
    let a = stores.drop_first();
    let b = a.drop_first();
    let c = b.drop_first();
    let d = c.drop_first();
    let e = d.drop_first();
    let f = e.drop_first();
    assert(a.first() == stores[1]);
    assert(b.first() == stores[2]);
    assert(c.first() == stores[3]);
    assert(d.first() == stores[4]);
    assert(e.first() == stores[5]);
    assert(f.first() == stores[6]);
    assert(f.drop_first() == Seq::<RegionStore>::empty());
}

/// A reset starts the stream over, at the rate that it has.
pub proof fn reset_starts_the_stream_over(
    w: &mut SharedAudioWriter,
    r: [RegionStore; 7],
    region: RegionState,
)
    requires
        call_ensures(SharedAudioWriter::reset, (w,), r),
        region.samples.len() == 960_000,
    ensures
        is_set_back(old(w)@, old(w)@.sample_rate as int, final(w)@),
        is_started_over(
            old(w)@,
            old(w)@.sample_rate as int,
            region,
            region.after_all(r@),
        ),
{
    lemma_start(old(w)@, region, r@);
}

/// Setting the format publishes the rate that was asked for, and one for zero, whatever the number
/// of channels. A new rate starts the stream over at that rate; the rate that the stream has
/// changes nothing.
pub proof fn format_publishes_its_rate(
    w: &mut SharedAudioWriter,
    channels: u16,
    sample_rate: u32,
    r: Option<[RegionStore; 7]>,
    region: RegionState,
)
    requires
        call_ensures(SharedAudioWriter::set_format, (w, channels, sample_rate), r),
        region.samples.len() == 960_000,
    ensures
        ({
            let rate = if sample_rate == 0 {
                1
            } else {
                sample_rate as int
            };
            &&& final(w)@.sample_rate == rate
            &&& r is None <==> old(w)@.sample_rate == rate
            &&& r is None ==> final(w)@ == old(w)@
            &&& r matches Some(stores) ==> {
                &&& is_set_back(old(w)@, rate, final(w)@)
                &&& is_started_over(old(w)@, rate, region, region.after_all(stores@))
            }
        }),
{
    if let Some(stores) = r {
        lemma_start(
            old(w)@.with_rate(WriterState::effective_rate(sample_rate)),
            region,
            stores@,
        );
    }
}

/// The stores of a start, one by one: a generation at the other side of the counter's range tells
/// that the region changes, then come the clearing, the rate, the counts and the sign of life, and
/// last the next generation.
pub proof fn start_stores_in_order(w: &mut SharedAudioWriter, r: [RegionStore; 7])
    requires
        call_ensures(SharedAudioWriter::reset, (w,), r),
    ensures
        r@[0] matches RegionStore::Generation(g) && moved_on(
            old(w)@.generation,
            0x8000_0000_0000_0000,
            g,
        ),
        r@[1] == (RegionStore::ClearSamples { count: 960_000 }),
        r@[2] == RegionStore::SampleRate(old(w)@.sample_rate),
        r@[3] == RegionStore::WriteFrame(0),
        r@[4] == RegionStore::TotalFrames(0),
        r@[5] == RegionStore::Active(1),
        r@[6] matches RegionStore::Generation(g) && moved_on(old(w)@.generation, 1, g),
{
}

/// The stores of a frame, one by one: a generation at the other side of the counter's range tells
/// that the region changes, then come both samples, side by side in the slot of the frame's
/// number, then both counts, and last the next generation. Each frame moves the writer on by one.
pub proof fn frame_stores_in_order(
    w: &mut SharedAudioWriter,
    left: u32,
    right: u32,
    r: [RegionStore; 6],
)
    requires
        call_ensures(SharedAudioWriter::push_frame, (w, left, right), r),
    ensures
        ({
            let slot = (old(w)@.write_frame as usize) as int % 480_000;
            &&& r@[0] matches RegionStore::Generation(g) && moved_on(
                old(w)@.generation,
                0x8000_0000_0000_0000,
                g,
            )
            &&& r@[1] matches RegionStore::Sample { index, bits } && index == 2 * slot && bits
                == left
            &&& r@[2] matches RegionStore::Sample { index, bits } && index == 2 * slot + 1 && bits
                == right
            &&& r@[3] matches RegionStore::WriteFrame(n) && moved_on(old(w)@.write_frame, 1, n)
            &&& r@[4] matches RegionStore::TotalFrames(n) && moved_on(old(w)@.write_frame, 1, n)
            &&& r@[5] matches RegionStore::Generation(g) && moved_on(old(w)@.generation, 1, g)
        }),
        moved_on(old(w)@.write_frame, 1, final(w)@.write_frame),
        moved_on(old(w)@.generation, 1, final(w)@.generation),
        final(w)@.sample_rate == old(w)@.sample_rate,
        final(w)@.last_transport_control == old(w)@.last_transport_control,
        final(w)@.last_visualizer_control == old(w)@.last_visualizer_control,
{
    vstd::arithmetic::div_mod::lemma_mod_bound(
        (old(w)@.write_frame as usize) as int,
        480_000,
    );
}

/// A word of 32 bits as a signed number.
pub open spec fn is_signed_word(word: u32, n: int) -> bool {
    &&& -0x8000_0000 <= n < 0x8000_0000
    &&& n % 0x1_0000_0000 == word as int
}

/// A poll reports a request for playback if its number is not that of the last one seen: to play
/// for the state one, to pause for the state two, and nothing for any other. It reports a step of
/// the visualizer if that request's number is not the last one seen, whatever the words of the
/// other request hold: the word as a signed number, but no more than sixteen to either side. Both
/// numbers count as seen then, and nothing else of the writer changes.
pub proof fn polls_report_new_requests(
    w: &mut SharedAudioWriter,
    words: ControlWords,
    r: SharedAudioControl,
    step: int,
)
    requires
        call_ensures(SharedAudioWriter::poll_control, (w, words), r),
        is_signed_word(words.visualizer_delta, step),
    ensures
        r.playback == Some(true) <==> words.transport_generation
            != old(w)@.last_transport_control && words.transport_state == 1,
        r.playback == Some(false) <==> words.transport_generation
            != old(w)@.last_transport_control && words.transport_state == 2,
        words.visualizer_generation == old(w)@.last_visualizer_control ==> r.visualizer_delta == 0,
        words.visualizer_generation != old(w)@.last_visualizer_control ==> {
            &&& -16 <= step <= 16 ==> r.visualizer_delta == step
            &&& step > 16 ==> r.visualizer_delta == 16
            &&& step < -16 ==> r.visualizer_delta == -16
        },
        final(w)@.last_transport_control == words.transport_generation,
        final(w)@.last_visualizer_control == words.visualizer_generation,
        final(w)@.sample_rate == old(w)@.sample_rate,
        final(w)@.write_frame == old(w)@.write_frame,
        final(w)@.generation == old(w)@.generation,
{
}

/// Every word is a signed number.
pub proof fn every_word_is_signed(word: u32) -> (n: int)
    ensures
        is_signed_word(word, n),
{
    if word < 0x8000_0000 {
        word as int
    } else {
        word - 0x1_0000_0000
    }
}

/// Closing a writer takes back its sign of life, and nothing else.
pub proof fn closing_takes_back_the_sign_of_life(
    w: &SharedAudioWriter,
    r: RegionStore,
    region: RegionState,
)
    requires
        call_ensures(SharedAudioWriter::close, (w,), r),
    ensures
        r == RegionStore::Active(0),
        region.after(r) == (RegionState {
            header: SparkAudioHeader { active: 0, ..region.header },
            ..region
        }),
{
}

/// A stream whose format is set twice has the second rate, and starts over the second time unless
/// both rates are the same.
pub proof fn last_format_counts(
    first: &mut SharedAudioWriter,
    a: u32,
    ra: Option<[RegionStore; 7]>,
    second: &mut SharedAudioWriter,
    b: u32,
    rb: Option<[RegionStore; 7]>,
    channels: (u16, u16),
)
    requires
        call_ensures(SharedAudioWriter::set_format, (first, channels.0, a), ra),
        *old(second) == *final(first),
        call_ensures(SharedAudioWriter::set_format, (second, channels.1, b), rb),
        a >= 1,
        b >= 1,
    ensures
        final(first)@.sample_rate == a,
        final(second)@.sample_rate == b,
        rb is None <==> a == b,
{
}

} // verus!
