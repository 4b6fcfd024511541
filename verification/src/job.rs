//! The job record: the complete description of one transcoding task.

use vstd::prelude::*;

use crate::dimensions::Dimensions;

verus! {

/// One transcoding task: where the input is, where the output goes, the
/// frame size to scale to, and the audio codec to force, if any.
#[derive(Debug)]
pub struct TranscoderJob {
    input_uri: String,
    output_uri: String,
    new_dimensions: Dimensions,
    audio_codec: Option<String>,
}

/// A job record as a mathematical value.
pub struct JobRecord {
    pub input_uri: Seq<char>,
    pub output_uri: Seq<char>,
    pub new_dimensions: Dimensions,
    pub audio_codec: Option<Seq<char>>,
}

impl JobRecord {
    /// A record is valid where it names an input and an output and both
    /// sides of the frame are positive.
    pub open spec fn is_valid(self) -> bool {
        &&& self.input_uri.len() > 0
        &&& self.output_uri.len() > 0
        &&& self.new_dimensions.width() > 0
        &&& self.new_dimensions.height() > 0
    }
}

impl View for TranscoderJob {
    type V = JobRecord;

    closed spec fn view(&self) -> JobRecord {
        JobRecord {
            input_uri: self.input_uri@,
            output_uri: self.output_uri@,
            new_dimensions: self.new_dimensions,
            audio_codec: match self.audio_codec {
                Some(codec) => Some(codec@),
                None => None,
            },
        }
    }
}

impl TranscoderJob {
    /// Makes a job record of its four fields.
    pub fn new(
        input_uri: String,
        output_uri: String,
        new_dimensions: Dimensions,
        audio_codec: Option<String>,
    ) -> (job: TranscoderJob)
        ensures
            job@ == (JobRecord {
                input_uri: input_uri@,
                output_uri: output_uri@,
                new_dimensions,
                audio_codec: match audio_codec {
                    Some(codec) => Some(codec@),
                    None => None,
                },
            }),
    {
        TranscoderJob { input_uri, output_uri, new_dimensions, audio_codec }
    }

    /// Where the input is.
    pub fn input_uri(&self) -> (input_uri: &String)
        ensures
            input_uri@ == self@.input_uri,
    {
        &self.input_uri
    }

    /// Where the output goes.
    pub fn output_uri(&self) -> (output_uri: &String)
        ensures
            output_uri@ == self@.output_uri,
    {
        &self.output_uri
    }

    /// The frame size to scale to.
    pub fn new_dimensions(&self) -> (new_dimensions: &Dimensions)
        ensures
            *new_dimensions == self@.new_dimensions,
    {
        &self.new_dimensions
    }

    /// The audio codec to force, if any.
    pub fn audio_codec(&self) -> (audio_codec: &Option<String>)
        ensures
            match audio_codec {
                Some(codec) => self@.audio_codec == Some(codec@),
                None => self@.audio_codec is None,
            },
    {
        &self.audio_codec
    }

    /// Tells whether the record is valid.
    pub fn is_valid(&self) -> (valid: bool)
        ensures
            valid == self@.is_valid(),
    {
        !self.input_uri.as_str().is_empty() && !self.output_uri.as_str().is_empty()
            && self.new_dimensions.width() > 0 && self.new_dimensions.height() > 0
    }
}

} // verus!
