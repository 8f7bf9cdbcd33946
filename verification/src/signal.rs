//! The signal path in words: the stream the output device opened, and how
//! it compares with the file being played.

use vstd::prelude::*;
use crate::format::{channel_name, channel_text, khz, khz_text};
use crate::text::{char_count, owned, push_char, same_text};

verus! {

/// The device's sample format as shown: `--` when the device did not say.
pub open spec fn format_label(fmt: Seq<char>) -> Seq<char> {
    if fmt.len() == 0 || fmt == "?"@ { "--"@ } else { fmt }
}

pub fn sample_format_label(fmt: &str) -> (r: &str)
    ensures
        r@ == format_label(fmt@),
{
    let unknown = "?";
    proof {
        reveal_strlit("?");
        reveal_strlit("--");
    }
    if char_count(fmt) == 0 || same_text(fmt, unknown) {
        "--"
    } else {
        fmt
    }
}

/// "96 kHz stereo f32": rate, channels and sample format of a stream.
pub open spec fn stream_text(rate: nat, channels: nat, fmt: Seq<char>) -> Seq<char> {
    khz_text(rate) + seq![' '] + channel_text(channels) + seq![' '] + format_label(fmt)
}

/// The stream the output device opened, as the inspector shows it.
pub fn device_stream(rate: u32, channels: u16, fmt: &str) -> (r: String)
    ensures
        r@ == stream_text(rate as nat, channels as nat, fmt@),
{
    let mut out = khz(rate);
    push_char(&mut out, ' ');
    let ch = channel_name(channels);
    out.append(ch.as_str());
    push_char(&mut out, ' ');
    out.append(sample_format_label(fmt));
    assert(out@ =~= stream_text(rate as nat, channels as nat, fmt@));
    out
}

/// "file 96 kHz stereo → device 48 kHz stereo": what a resampled path turned into what.
pub open spec fn resampled_text(file_rate: nat, file_channels: nat, rate: nat, channels: nat) -> Seq<char> {
    "file "@ + khz_text(file_rate) + seq![' '] + channel_text(file_channels) + " → device "@ + khz_text(rate)
        + seq![' '] + channel_text(channels)
}

pub fn resampled_path(file_rate: u32, file_channels: u16, rate: u32, channels: u16) -> (r: String)
    ensures
        r@ == resampled_text(file_rate as nat, file_channels as nat, rate as nat, channels as nat),
{
    let mut out = owned("file ");
    out.append(khz(file_rate).as_str());
    push_char(&mut out, ' ');
    out.append(channel_name(file_channels).as_str());
    out.append(" → device ");
    out.append(khz(rate).as_str());
    push_char(&mut out, ' ');
    out.append(channel_name(channels).as_str());
    proof {
        reveal_strlit("file ");
        reveal_strlit(" → device ");
    }
    assert(out@ =~= resampled_text(file_rate as nat, file_channels as nat, rate as nat, channels as nat));
    out
}

/// The badge after the signal line: whether the device plays the file as it is.
pub open spec fn badge_text(bit_perfect: bool) -> Seq<char> {
    if bit_perfect { "● bit perfect"@ } else { "▲ resampled"@ }
}

pub fn path_badge(bit_perfect: bool) -> (r: &'static str)
    ensures
        r@ == badge_text(bit_perfect),
{
    if bit_perfect { "● bit perfect" } else { "▲ resampled" }
}

} // verus!
