use sparkplayer::packer::SharedAudioFramePacker;

#[test]
fn mono_samples_are_duplicated_to_stereo_frames() {
    let mut packer = SharedAudioFramePacker::<f32>::new(1);
    assert_eq!(packer.push_sample(0.25), Some((0.25, 0.25)));
    assert_eq!(packer.push_sample(-0.5), Some((-0.5, -0.5)));
}

#[test]
fn stereo_samples_are_packed_in_pairs() {
    let mut packer = SharedAudioFramePacker::<f32>::new(2);
    assert_eq!(packer.push_sample(0.25), None);
    assert_eq!(packer.push_sample(-0.5), Some((0.25, -0.5)));
}

#[test]
fn multichannel_sources_keep_the_first_stereo_pair() {
    let mut packer = SharedAudioFramePacker::<f32>::new(6);
    for sample in [0.1, 0.2, 0.3, 0.4, 0.5] {
        assert_eq!(packer.push_sample(sample), None);
    }
    assert_eq!(packer.push_sample(0.6), Some((0.1, 0.2)));
}

#[test]
fn no_channels_count_as_one() {
    let mut packer = SharedAudioFramePacker::<f32>::new(0);
    assert_eq!(packer.push_sample(0.75), Some((0.75, 0.75)));
}

#[test]
fn frames_of_a_source_do_not_mix() {
    let mut packer = SharedAudioFramePacker::<u32>::new(3);
    let mut frames = Vec::new();
    for sample in 0..9u32 {
        if let Some(frame) = packer.push_sample(sample) {
            assert_eq!(sample % 3, 2);
            frames.push(frame);
        }
    }
    assert_eq!(frames, vec![(0, 1), (3, 4), (6, 7)]);
}
