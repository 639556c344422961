//! What the stores to a region are for.
use crate::region::{
    control_words, shared_byte_len, ControlWords, HeapRegion, RegionState, RegionStore,
    SparkAudioHeader,
};
use vstd::prelude::*;

verus! {

/// The region has eighty bytes of header, and ten seconds of stereo frames at 48 kHz, each with
/// two samples of four bytes.
pub proof fn region_holds_ten_seconds(r: usize)
    requires
        call_ensures(shared_byte_len, (), r),
    ensures
        r == 80 + 10 * 48_000 * 2 * 4,
{
}

/// A region begins as zeros, in the header and in all samples of its ring.
pub proof fn new_region_is_zero(r: HeapRegion)
    requires
        call_ensures(HeapRegion::open, (), r),
    ensures
        r@.samples.len() == 960_000,
        forall|i: int| 0 <= i < 960_000 ==> #[trigger] r@.samples[i] == 0,
        r@.header.magic == 0,
        r@.header.version == 0,
        r@.header.header_size == 0,
        r@.header.capacity_frames == 0,
        r@.header.channels == 0,
        r@.header.sample_rate == 0,
        r@.header.write_frame == 0,
        r@.header.total_frames == 0,
        r@.header.generation == 0,
        r@.header.active == 0,
        forall|i: int| 0 <= i < 7 ==> #[trigger] r@.header.reserved@[i] == 0,
{
}

/// Whether one store leads from a region to another: it changes what it names, and nothing else.
pub open spec fn changes_only(before: RegionState, store: RegionStore, after: RegionState) -> bool {
    let h = before.header;
    let k = after.header;
    &&& after.samples.len() == before.samples.len()
    &&& forall|i: int|
        0 <= i < before.samples.len() ==> #[trigger] after.samples[i] == (match store {
            RegionStore::ClearSamples { count } => if i < count {
                0u32
            } else {
                before.samples[i]
            },
            RegionStore::Sample { index, bits } => if i == index {
                bits
            } else {
                before.samples[i]
            },
            _ => before.samples[i],
        })
    &&& store matches RegionStore::Header(header) ==> k == header
    &&& !(store is Header) ==> {
        &&& k.magic == h.magic
        &&& k.version == h.version
        &&& k.header_size == h.header_size
        &&& k.capacity_frames == h.capacity_frames
        &&& k.channels == h.channels
        &&& k.reserved == h.reserved
        &&& k.sample_rate == (if let RegionStore::SampleRate(rate) = store {
            rate
        } else {
            h.sample_rate
        })
        &&& k.write_frame == (if let RegionStore::WriteFrame(frame) = store {
            frame
        } else {
            h.write_frame
        })
        &&& k.total_frames == (if let RegionStore::TotalFrames(total) = store {
            total
        } else {
            h.total_frames
        })
        &&& k.generation == (if let RegionStore::Generation(generation) = store {
            generation
        } else {
            h.generation
        })
        &&& k.active == (if let RegionStore::Active(active) = store {
            active
        } else {
            h.active
        })
    }
}

/// A store changes what it names, and nothing else.
pub proof fn store_changes_only_its_place(region: &mut HeapRegion, store: RegionStore)
    requires
        call_ensures(HeapRegion::store, (region, store), ()),
        store matches RegionStore::Sample { index, .. } ==> index < old(region)@.samples.len(),
    ensures
        changes_only(old(region)@, store, final(region)@),
{
}

/// The same holds of the regions that the laws of the stream speak of.
pub proof fn after_changes_only_its_place(before: RegionState, store: RegionStore)
    requires
        store matches RegionStore::Sample { index, .. } ==> index < before.samples.len(),
    ensures
        changes_only(before, store, before.after(store)),
{
}

/// A run of stores is carried out one by one, in order.
pub proof fn stores_follow_one_another(
    before: RegionState,
    stores: Seq<RegionStore>,
    last: RegionStore,
)
    requires
        last matches RegionStore::Sample { index, .. } ==> index < before.after_all(
            stores,
        ).samples.len(),
    ensures
        before.after_all(Seq::empty()) == before,
        changes_only(before.after_all(stores), last, before.after_all(stores.push(last))),
    decreases stores.len(),
{
    reveal_with_fuel(RegionState::after_all, 2);
    if stores.len() == 0 {
        assert(stores.push(last).drop_first() == Seq::<RegionStore>::empty());
        after_changes_only_its_place(before, last);
    } else {
        assert(stores.push(last).drop_first() == stores.drop_first().push(last));
        stores_follow_one_another(before.after(stores.first()), stores.drop_first(), last);
    }
}

/// What is read of a region is what it holds.
pub proof fn reads_show_the_region(
    region: &HeapRegion,
    header: SparkAudioHeader,
    index: usize,
    sample: u32,
)
    requires
        call_ensures(HeapRegion::header, (region,), header),
        call_ensures(HeapRegion::sample, (region, index), sample),
    ensures
        header == region@.header,
        sample == region@.samples[index as int],
{
}

/// Visualizers leave their requests in the first four reserved words: the number and the state of
/// the transport request, then the number and the step of the visualizer request.
pub proof fn requests_stand_in_reserved_words(header: &SparkAudioHeader, r: ControlWords)
    requires
        call_ensures(control_words, (header,), r),
    ensures
        r.transport_generation == header.reserved@[0],
        r.transport_state == header.reserved@[1],
        r.visualizer_generation == header.reserved@[2],
        r.visualizer_delta == header.reserved@[3],
        r == (RegionState { header: *header, samples: Seq::empty() }).control_words(),
{
}

} // verus!
