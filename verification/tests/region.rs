use sparkplayer::region::{
    control_words, shared_byte_len, ControlWords, HeapRegion, RegionStore, DEFAULT_CAPACITY_FRAMES,
    HEADER_SIZE, MAGIC,
};
use sparkplayer::writer::{effective_rate, SharedAudioControl, SharedAudioWriter, WriterState};

/// The bit that a generation has while the region changes.
const PASSING: u64 = 1 << 63;

fn set_up() -> (SharedAudioWriter, HeapRegion) {
    let (writer, stores) = SharedAudioWriter::new();
    let mut region = HeapRegion::open();
    for store in stores {
        region.store(store);
    }
    (writer, region)
}

fn push(writer: &mut SharedAudioWriter, region: &mut HeapRegion, left: u32, right: u32) {
    for store in writer.push_frame(left, right) {
        region.store(store);
    }
}

fn words(tg: u32, ts: u32, vg: u32, vd: u32) -> ControlWords {
    ControlWords {
        transport_generation: tg,
        transport_state: ts,
        visualizer_generation: vg,
        visualizer_delta: vd,
    }
}

#[test]
fn layout_constants() {
    assert_eq!(MAGIC.to_le_bytes(), *b"SPRK");
    assert_eq!(HEADER_SIZE, 80);
    assert_eq!(shared_byte_len(), 3_840_080);
}

#[test]
fn setup_writes_the_header() {
    let region = HeapRegion::open();
    assert_eq!(region.header().magic, 0);
    let (writer, region) = set_up();
    let h = region.header();
    assert_eq!(h.magic, MAGIC);
    assert_eq!(h.version, 1);
    assert_eq!(h.header_size, 80);
    assert_eq!(h.capacity_frames, 480_000);
    assert_eq!(h.channels, 2);
    assert_eq!(h.sample_rate, 44_100);
    assert_eq!((h.write_frame, h.total_frames, h.generation), (0, 0, 1));
    assert_eq!(h.active, 1);
    assert_eq!(h.reserved, [0; 7]);
    assert_eq!(writer.close(), RegionStore::Active(0));
}

#[test]
fn frames_go_round_the_ring() {
    let (mut writer, mut region) = set_up();
    for n in 0..DEFAULT_CAPACITY_FRAMES + 2 {
        push(&mut writer, &mut region, n, n + 1);
    }
    assert_eq!(region.sample(0), DEFAULT_CAPACITY_FRAMES);
    assert_eq!(region.sample(1), DEFAULT_CAPACITY_FRAMES + 1);
    assert_eq!(region.sample(2), DEFAULT_CAPACITY_FRAMES + 1);
    assert_eq!(region.sample(4), 2);
    assert_eq!(region.sample(959_999), 480_000);
    assert_eq!(region.header().total_frames, 480_002);
    assert_eq!(region.header().write_frame, 480_002);
}

#[test]
fn a_frame_is_stored_between_two_announcements() {
    let (mut writer, _) = set_up();
    let left = 0.25f32.to_bits();
    let right = (-0.5f32).to_bits();
    assert_eq!(
        writer.push_frame(left, right),
        [
            RegionStore::Generation(PASSING + 1),
            RegionStore::Sample { index: 0, bits: 0x3e80_0000 },
            RegionStore::Sample { index: 1, bits: 0xbf00_0000 },
            RegionStore::WriteFrame(1),
            RegionStore::TotalFrames(1),
            RegionStore::Generation(2),
        ]
    );
}

#[test]
fn a_reset_clears_and_moves_the_generation_on() {
    let (mut writer, mut region) = set_up();
    push(&mut writer, &mut region, 7, 8);
    assert_eq!(region.sample(0), 7);
    let stores = writer.reset();
    assert_eq!(
        stores,
        [
            RegionStore::Generation(PASSING + 2),
            RegionStore::ClearSamples { count: 960_000 },
            RegionStore::SampleRate(44_100),
            RegionStore::WriteFrame(0),
            RegionStore::TotalFrames(0),
            RegionStore::Active(1),
            RegionStore::Generation(3),
        ]
    );
    for store in stores {
        region.store(store);
    }
    let h = region.header();
    assert_eq!((h.write_frame, h.total_frames, h.generation, h.active), (0, 0, 3, 1));
    assert_eq!((region.sample(0), region.sample(1)), (0, 0));
}

#[test]
fn only_a_new_rate_resets() {
    let (mut writer, _) = set_up();
    assert_eq!(writer.set_format(2, 44_100), None);
    let stores = writer.set_format(6, 48_000).unwrap();
    assert_eq!(stores[0], RegionStore::Generation(PASSING + 1));
    assert_eq!(stores[2], RegionStore::SampleRate(48_000));
    assert_eq!(stores[6], RegionStore::Generation(2));
    assert_eq!(writer.set_format(1, 48_000), None);
    let stores = writer.set_format(1, 0).unwrap();
    assert_eq!(stores[2], RegionStore::SampleRate(1));
    assert_eq!(stores[6], RegionStore::Generation(3));
    assert_eq!(writer.set_format(1, 1), None);
    assert_eq!((effective_rate(0), effective_rate(1), effective_rate(96_000)), (1, 1, 96_000));
}

#[test]
fn requests_are_reported_once() {
    let (mut writer, region) = set_up();
    let nothing = SharedAudioControl { playback: None, visualizer_delta: 0 };
    assert_eq!(writer.poll_control(control_words(&region.header())), nothing);
    assert_eq!(
        writer.poll_control(words(1, 1, 0, 5)),
        SharedAudioControl { playback: Some(true), visualizer_delta: 0 }
    );
    assert_eq!(writer.poll_control(words(1, 2, 0, 5)), nothing);
    assert_eq!(
        writer.poll_control(words(2, 2, 1, 5)),
        SharedAudioControl { playback: Some(false), visualizer_delta: 5 }
    );
    writer.push_frame(1, 2);
    writer.reset();
    writer.set_format(2, 8_000);
    assert_eq!(writer.poll_control(words(2, 1, 1, 9)), nothing);
    assert_eq!(writer.poll_control(words(3, 9, 1, 5)), nothing);
}

#[test]
fn visualizer_requests_are_signed_and_bounded() {
    let (mut writer, _) = set_up();
    let mut delta = |generation: u32, word: u32| {
        writer.poll_control(words(0, 0, generation, word)).visualizer_delta
    };
    assert_eq!(delta(1, u32::MAX), -1);
    assert_eq!(delta(2, 0x8000_0000), -16);
    assert_eq!(delta(3, 0x7fff_ffff), 16);
    assert_eq!(delta(4, 16), 16);
    assert_eq!(delta(5, (-16i32) as u32), -16);
    assert_eq!(delta(6, 3), 3);
}

#[test]
fn control_words_are_the_first_reserved_ones() {
    let (_, mut region) = set_up();
    let mut header = region.header();
    header.reserved = [1, 2, 3, 4, 5, 6, 7];
    region.store(RegionStore::Header(header));
    assert_eq!(control_words(&region.header()), words(1, 2, 3, 4));
    region.store(RegionStore::Active(0));
    assert_eq!(region.header().active, 0);
    assert_eq!(region.header().reserved, [1, 2, 3, 4, 5, 6, 7]);
}

#[test]
fn the_generation_counts_starts_and_frames() {
    let (mut writer, mut region) = set_up();
    push(&mut writer, &mut region, 1, 2);
    writer.poll_control(words(4, 1, 4, 1));
    assert_eq!(writer.set_format(2, 44_100), None);
    assert_eq!(region.header().generation, 2);
    for store in writer.reset() {
        region.store(store);
    }
    assert_eq!(region.header().generation, 3);
    for store in writer.set_format(2, 96_000).unwrap() {
        region.store(store);
    }
    assert_eq!(region.header().generation, 4);
    assert_eq!(region.header().sample_rate, 96_000);
    push(&mut writer, &mut region, 5, 6);
    assert_eq!(region.header().generation, 5);
    assert_eq!(region.header().total_frames, 1);
    assert_eq!((region.sample(0), region.sample(1)), (5, 6));
}

#[test]
fn equal_generations_enclose_no_store() {
    let (mut writer, mut region) = set_up();
    let operations: Vec<Vec<RegionStore>> = vec![
        writer.push_frame(3, 4).to_vec(),
        writer.reset().to_vec(),
        writer.set_format(2, 8_000).unwrap().to_vec(),
        writer.push_frame(5, 6).to_vec(),
    ];
    // For every point of the run: the operation that it lies inside, if any, and the generation.
    let mut points = vec![(None, region.header().generation)];
    for (n, stores) in operations.iter().enumerate() {
        for (i, store) in stores.iter().enumerate() {
            region.store(*store);
            let inside = if i + 1 < stores.len() { Some(n) } else { None };
            points.push((inside, region.header().generation));
        }
    }
    for (i, before) in points.iter().enumerate() {
        assert_eq!(before.0.is_some(), before.1 >= PASSING);
        for after in &points[i + 1..] {
            if before.1 == after.1 {
                assert!(before.0.is_some());
                assert_eq!(before.0, after.0);
            }
        }
    }
    assert_eq!(points.last(), Some(&(None, 5)));
}

#[test]
fn a_copy_that_begins_inside_a_reset_is_refused() {
    let (mut writer, mut region) = set_up();
    push(&mut writer, &mut region, 7, 8);
    let stores = writer.reset();
    region.store(stores[0]);
    let first_read = region.header().generation;
    assert_eq!(region.sample(0), 7);
    for store in &stores[1..] {
        region.store(*store);
    }
    assert_eq!(region.sample(0), 0);
    assert_eq!((first_read, region.header().generation), (PASSING + 2, 3));
}

#[test]
fn a_start_counts_from_zero_when_the_frames_are_gone() {
    let (mut writer, mut region) = set_up();
    push(&mut writer, &mut region, 7, 8);
    for store in writer.set_format(2, 8_000).unwrap() {
        region.store(store);
        let h = region.header();
        if (h.write_frame, h.total_frames) != (1, 1) {
            assert_eq!((region.sample(0), region.sample(1)), (0, 0));
            assert_eq!(h.sample_rate, 8_000);
        }
    }
    assert_eq!((region.header().write_frame, region.header().total_frames), (0, 0));
}

#[test]
fn the_writer_is_active_until_it_is_closed() {
    let (mut writer, mut region) = set_up();
    push(&mut writer, &mut region, 7, 8);
    for store in writer.reset().into_iter().chain(writer.push_frame(1, 2)) {
        region.store(store);
        assert_eq!(region.header().active, 1);
    }
    let mut expected = region.header();
    expected.active = 0;
    region.store(writer.close());
    assert_eq!(region.header(), expected);
    assert_eq!((region.sample(0), region.sample(1)), (1, 2));
}

#[test]
fn a_writer_takes_up_where_another_was() {
    let (mut writer, _) = set_up();
    writer.push_frame(1, 2);
    writer.set_format(2, 8_000);
    writer.push_frame(3, 4);
    writer.poll_control(words(6, 1, 7, 1));
    let counters = writer.counters();
    assert_eq!(
        counters,
        WriterState {
            sample_rate: 8_000,
            write_frame: 1,
            generation: 4,
            last_transport_control: 6,
            last_visualizer_control: 7,
        }
    );
    let mut other = SharedAudioWriter::resume(counters);
    assert_eq!(other.counters(), counters);
    assert_eq!(other.push_frame(5, 6), writer.push_frame(5, 6));
    let last = WriterState { write_frame: u64::MAX, generation: u64::MAX, ..counters };
    let stores = SharedAudioWriter::resume(last).push_frame(0, 0);
    assert_eq!(stores[0], RegionStore::Generation(PASSING - 1));
    assert_eq!(stores[3], RegionStore::WriteFrame(0));
    assert_eq!(stores[5], RegionStore::Generation(0));
}
