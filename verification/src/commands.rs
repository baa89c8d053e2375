//! The argument lists of the FFmpeg runs that encode, mix, trim and
//! sample videos. Times are written out by the caller, as they are to
//! appear on the command line.

use vstd::prelude::*;
use crate::improve::texts;
use crate::text::{decimal, decimal_string};

verus! {

fn push_arg(v: &mut Vec<String>, a: &str)
    ensures
        texts(final(v)@) == texts(old(v)@).push(a@),
{
    v.push(String::from_str(a));
    assert(texts(v@) =~= texts(old(v)@).push(a@));
}

fn push_owned_arg(v: &mut Vec<String>, a: String)
    ensures
        texts(final(v)@) == texts(old(v)@).push(a@),
{
    let ghost t = a@;
    v.push(a);
    assert(texts(v@) =~= texts(old(v)@).push(t));
}

/// Encoding of a stream of JPEG frames, read from standard input at `fps`
/// frames per second, into an H.264 video at `output`.
pub open spec fn encode_arguments(fps: nat, output: Seq<char>) -> Seq<Seq<char>> {
    seq![
        "-y"@,
        "-f"@,
        "image2pipe"@,
        "-vcodec"@,
        "mjpeg"@,
        "-r"@,
        decimal(fps),
        "-i"@,
        "-"@,
        "-c:v"@,
        "libx264"@,
        "-pix_fmt"@,
        "yuv420p"@,
        "-crf"@,
        "23"@,
        "-preset"@,
        "medium"@,
        output,
    ]
}

/// The arguments of the run that encodes piped frames into a video.
pub fn encode_args(fps: u32, output: &str) -> (r: Vec<String>)
    ensures
        texts(r@) == encode_arguments(fps as nat, output@),
{
    let mut r: Vec<String> = Vec::new();
    assert(texts(r@) =~= Seq::<Seq<char>>::empty());
    push_arg(&mut r, "-y");
    push_arg(&mut r, "-f");
    push_arg(&mut r, "image2pipe");
    push_arg(&mut r, "-vcodec");
    push_arg(&mut r, "mjpeg");
    push_arg(&mut r, "-r");
    push_owned_arg(&mut r, decimal_string(fps as u64));
    push_arg(&mut r, "-i");
    push_arg(&mut r, "-");
    push_arg(&mut r, "-c:v");
    push_arg(&mut r, "libx264");
    push_arg(&mut r, "-pix_fmt");
    push_arg(&mut r, "yuv420p");
    push_arg(&mut r, "-crf");
    push_arg(&mut r, "23");
    push_arg(&mut r, "-preset");
    push_arg(&mut r, "medium");
    push_arg(&mut r, output);
    assert(texts(r@) =~= encode_arguments(fps as nat, output@));
    r
}

/// An input option for each audio source.
pub open spec fn audio_inputs(sources: Seq<Seq<char>>) -> Seq<Seq<char>>
    decreases sources.len(),
{
    if sources.len() == 0 {
        Seq::empty()
    } else {
        audio_inputs(sources.drop_last()) + seq!["-i"@, sources.last()]
    }
}

/// Mixing audio into a video: the video's picture is copied, the audio
/// sources are mixed by `filter` into an AAC track.
pub open spec fn mux_arguments(
    video: Seq<char>,
    sources: Seq<Seq<char>>,
    filter: Seq<char>,
    output: Seq<char>,
) -> Seq<Seq<char>> {
    seq!["-y"@, "-i"@, video] + audio_inputs(sources) + seq![
        "-filter_complex"@,
        filter,
        "-map"@,
        "0:v"@,
        "-map"@,
        "[out_a]"@,
        "-c:v"@,
        "copy"@,
        "-c:a"@,
        "aac"@,
        output,
    ]
}

/// The arguments of the run that mixes audio tracks into a video.
pub fn mux_audio_args(video: &str, sources: &Vec<String>, filter: &str, output: &str) -> (r: Vec<
    String,
>)
    ensures
        texts(r@) == mux_arguments(video@, texts(sources@), filter@, output@),
{
    let ghost srcs = texts(sources@);
    let mut r: Vec<String> = Vec::new();
    assert(texts(r@) =~= Seq::<Seq<char>>::empty());
    push_arg(&mut r, "-y");
    push_arg(&mut r, "-i");
    push_arg(&mut r, video);
    assert(texts(r@) =~= seq!["-y"@, "-i"@, video@] + audio_inputs(srcs.take(0)));
    let mut i: usize = 0;
    while i < sources.len()
        invariant
            i <= sources@.len(),
            srcs == texts(sources@),
            texts(r@) == seq!["-y"@, "-i"@, video@] + audio_inputs(srcs.take(i as int)),
        decreases sources@.len() - i,
    {
        push_arg(&mut r, "-i");
        push_arg(&mut r, sources[i].as_str());
        assert(srcs.take(i + 1).drop_last() =~= srcs.take(i as int));
        assert(texts(r@) =~= seq!["-y"@, "-i"@, video@] + audio_inputs(srcs.take(i + 1)));
        i = i + 1;
    }
    assert(srcs.take(sources@.len() as int) =~= srcs);
    push_arg(&mut r, "-filter_complex");
    push_arg(&mut r, filter);
    push_arg(&mut r, "-map");
    push_arg(&mut r, "0:v");
    push_arg(&mut r, "-map");
    push_arg(&mut r, "[out_a]");
    push_arg(&mut r, "-c:v");
    push_arg(&mut r, "copy");
    push_arg(&mut r, "-c:a");
    push_arg(&mut r, "aac");
    push_arg(&mut r, output);
    assert(texts(r@) =~= mux_arguments(video@, srcs, filter@, output@));
    r
}

/// Cutting the part of `input` from `start` to `end` (seconds) into a
/// re-encoded video at `output`.
pub open spec fn trim_arguments(
    start: Seq<char>,
    end: Seq<char>,
    input: Seq<char>,
    output: Seq<char>,
) -> Seq<Seq<char>> {
    seq![
        "-y"@,
        "-ss"@,
        start,
        "-to"@,
        end,
        "-i"@,
        input,
        "-c:v"@,
        "libx264"@,
        "-c:a"@,
        "aac"@,
        output,
    ]
}

/// The arguments of the run that trims a video.
pub fn trim_args(start: &str, end: &str, input: &str, output: &str) -> (r: Vec<String>)
    ensures
        texts(r@) == trim_arguments(start@, end@, input@, output@),
{
    let mut r: Vec<String> = Vec::new();
    assert(texts(r@) =~= Seq::<Seq<char>>::empty());
    push_arg(&mut r, "-y");
    push_arg(&mut r, "-ss");
    push_arg(&mut r, start);
    push_arg(&mut r, "-to");
    push_arg(&mut r, end);
    push_arg(&mut r, "-i");
    push_arg(&mut r, input);
    push_arg(&mut r, "-c:v");
    push_arg(&mut r, "libx264");
    push_arg(&mut r, "-c:a");
    push_arg(&mut r, "aac");
    push_arg(&mut r, output);
    assert(texts(r@) =~= trim_arguments(start@, end@, input@, output@));
    r
}

/// Saving the single frame of `input` at `offset` (seconds) as an image
/// at `output`.
pub open spec fn frame_arguments(offset: Seq<char>, input: Seq<char>, output: Seq<char>) -> Seq<
    Seq<char>,
> {
    seq!["-y"@, "-ss"@, offset, "-i"@, input, "-vframes"@, "1"@, output]
}

/// The arguments of the run that extracts one frame of a video.
pub fn frame_args(offset: &str, input: &str, output: &str) -> (r: Vec<String>)
    ensures
        texts(r@) == frame_arguments(offset@, input@, output@),
{
    let mut r: Vec<String> = Vec::new();
    assert(texts(r@) =~= Seq::<Seq<char>>::empty());
    push_arg(&mut r, "-y");
    push_arg(&mut r, "-ss");
    push_arg(&mut r, offset);
    push_arg(&mut r, "-i");
    push_arg(&mut r, input);
    push_arg(&mut r, "-vframes");
    push_arg(&mut r, "1");
    push_arg(&mut r, output);
    assert(texts(r@) =~= frame_arguments(offset@, input@, output@));
    r
}

} // verus!
