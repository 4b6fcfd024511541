//! The command line with which the transcoder is started for a job.

use vstd::prelude::*;
use vstd::string::StringExecFns;

use crate::dimensions::Dimensions;
use crate::job::{JobRecord, TranscoderJob};
use crate::text::{decimal_digits, decimal_text};

verus! {

/// The name of the transcoder's executable.
pub const TRANSCODER_PROGRAM: &'static str = "ffmpeg";

/// The frame size as the transcoder wants it: width, `x`, height.
pub open spec fn size_argument(dimensions: Dimensions) -> Seq<char> {
    decimal_digits(dimensions.width() as nat) + seq!['x'] + decimal_digits(
        dimensions.height() as nat,
    )
}

/// The arguments that tell the transcoder which audio codec to force.
pub open spec fn audio_arguments(audio_codec: Option<Seq<char>>) -> Seq<Seq<char>> {
    match audio_codec {
        Some(codec) => seq!["-c:a"@, codec],
        None => Seq::empty(),
    }
}

/// The arguments of the transcoder for `job`: overwrite the output, read
/// nothing from standard input, write machine-readable progress to standard
/// output and no periodic statistics, then the input, the frame size, the
/// audio codec if one is forced, and the output.
pub open spec fn command_arguments(job: JobRecord) -> Seq<Seq<char>> {
    seq![
        "-y"@,
        "-nostdin"@,
        "-progress"@,
        "-"@,
        "-nostats"@,
        "-i"@,
        job.input_uri,
        "-s"@,
        size_argument(job.new_dimensions),
    ] + audio_arguments(job.audio_codec) + seq![job.output_uri]
}

/// Writes the frame size as the transcoder wants it.
pub fn size_text(dimensions: &Dimensions) -> (text: String)
    ensures
        text@ == size_argument(*dimensions),
{
    proof {
        reveal_strlit("x");
    }
    let mut text = decimal_text(dimensions.width());
    text.append("x");
    text.append(decimal_text(dimensions.height()).as_str());
    assert(text@ =~= size_argument(*dimensions));
    text
}

/// Builds the arguments of the transcoder for `job`.
pub fn build_arguments(job: &TranscoderJob) -> (arguments: Vec<String>)
    ensures
        arguments.deep_view() == command_arguments(job@),
{
    let mut arguments: Vec<String> = Vec::new();
    arguments.push(String::from_str("-y"));
    arguments.push(String::from_str("-nostdin"));
    arguments.push(String::from_str("-progress"));
    arguments.push(String::from_str("-"));
    arguments.push(String::from_str("-nostats"));
    arguments.push(String::from_str("-i"));
    arguments.push(job.input_uri().clone());
    arguments.push(String::from_str("-s"));
    arguments.push(size_text(job.new_dimensions()));
    assert(arguments.deep_view() =~= seq![
        "-y"@,
        "-nostdin"@,
        "-progress"@,
        "-"@,
        "-nostats"@,
        "-i"@,
        job@.input_uri,
        "-s"@,
        size_argument(job@.new_dimensions),
    ]);
    let ghost fixed = arguments.deep_view();
    match job.audio_codec() {
        Some(codec) => {
            arguments.push(String::from_str("-c:a"));
            arguments.push(codec.clone());
            assert(arguments.deep_view() =~= fixed + audio_arguments(job@.audio_codec));
        },
        None => {
            assert(arguments.deep_view() =~= fixed + audio_arguments(job@.audio_codec));
        },
    }
    let ghost with_audio = arguments.deep_view();
    arguments.push(job.output_uri().clone());
    assert(arguments.deep_view() =~= with_audio + seq![job@.output_uri]);
    arguments
}

} // verus!
