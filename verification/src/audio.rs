//! Audio: Opus streams in Ogg files, PCM wave files, and the audio device enumerations.

use vstd::prelude::*;

pub mod opus;
pub mod coreaudio;
pub mod raw;

verus! {

/// Errors of the audio devices.
#[derive(Debug, Clone, Copy, PartialEq, Eq, Structural)]
pub enum Error {
    OwnerCreation,
    OutputCreation,
    InputCreation,
    OutputPlayback,
    InputCapture,
    ChannelMismatch,
    InputCallback,
}

/// How an input stream with `channels` channels is handed to a callback that expects
/// `expected_channels`.
#[derive(Debug, Clone, Copy, PartialEq, Eq, Structural)]
pub enum InputChannelPlan {
    /// The samples as they come.
    Direct,
    /// Stereo samples mixed down to the mono that the callback expects.
    DownmixStereo,
    /// No way to hand them over: a channel mismatch.
    Mismatch,
}

/// The plan for an input stream: as it comes where the channel counts agree, mixed down
/// where stereo comes and mono is expected, else a mismatch.
pub fn get_input_channel_plan(channels: u32, expected_channels: u32) -> (r: InputChannelPlan)
    ensures
        r == (if channels == expected_channels {
            InputChannelPlan::Direct
        } else if channels == 2 && expected_channels == 1 {
            InputChannelPlan::DownmixStereo
        } else {
            InputChannelPlan::Mismatch
        }),
{
    if channels == expected_channels {
        InputChannelPlan::Direct
    } else if channels == 2 && expected_channels == 1 {
        InputChannelPlan::DownmixStereo
    } else {
        InputChannelPlan::Mismatch
    }
}

/// An output stream must have the channels that its callback expects.
pub fn check_output_channels(channels: u32, expected_channels: u32) -> (r: Result<(), Error>)
    ensures
        r == (if channels == expected_channels {
            Ok(())
        } else {
            Err(Error::ChannelMismatch)
        }),
{
    if channels != expected_channels {
        return Err(Error::ChannelMismatch);
    }
    Ok(())
}

} // verus!
