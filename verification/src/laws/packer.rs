//! What the packer of stereo frames is for.
use crate::packer::SharedAudioFramePacker;
use vstd::prelude::*;

verus! {

/// A packer is made for the number of channels that its source has, and for one if it has none.
/// No sample is pending.
pub proof fn new_packer_has_the_channels_of_its_source<T: Copy>(
    channels: u16,
    r: SharedAudioFramePacker<T>,
)
    requires
        call_ensures(SharedAudioFramePacker::<T>::new, (channels,), r),
    ensures
        channels >= 1 ==> r@.channels == channels,
        channels == 0 ==> r@.channels == 1,
        r@.pending.len() == 0,
{
}

/// A sample that does not complete the set of channels is kept and gives no frame. One that does
/// gives the first two samples of the set, or the one twice, and leaves nothing pending.
pub proof fn full_sets_of_channels_make_frames<T: Copy>(
    packer: &mut SharedAudioFramePacker<T>,
    sample: T,
    r: Option<(T, T)>,
)
    requires
        call_ensures(SharedAudioFramePacker::<T>::push_sample, (packer, sample), r),
        old(packer)@.pending.len() < old(packer)@.channels,
    ensures
        ({
            let samples = old(packer)@.pending.push(sample);
            let channels = old(packer)@.channels;
            &&& final(packer)@.channels == channels
            &&& samples.len() < channels ==> r is None && final(packer)@.pending == samples
            &&& samples.len() == channels ==> final(packer)@.pending.len() == 0
            &&& samples.len() == channels && channels == 1 ==> r == Some((sample, sample))
            &&& samples.len() == channels && channels > 1 ==> r == Some((samples[0], samples[1]))
        }),
{
}

} // verus!
