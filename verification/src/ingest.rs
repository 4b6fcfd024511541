//! The rules by which an upload becomes a job record.
//!
//! An upload is a form of named fields. The module says which names the
//! form may hold, where an uploaded file is stored, and how the fields that
//! came in make up a job record or fail to.

use vstd::prelude::*;
use vstd::string::StringExecFns;

use crate::dimensions::Dimensions;
use crate::job::{JobRecord, TranscoderJob};
use crate::text::same_text;

verus! {

/// What a field of the upload form holds, told by its name.
#[derive(Debug, Clone, Copy, PartialEq, Eq, Structural)]
pub enum FormField {
    /// The media file itself.
    File,
    /// The frame size to scale to.
    NewDimension,
    /// A field that the form must not hold.
    Unknown,
}

/// Why an upload gives no job record.
#[derive(Debug, Clone, Copy, PartialEq, Eq, Structural)]
pub enum IngestError {
    /// The form holds a field of an unknown name.
    UnknownField,
    /// The form holds no file, or the file was stored under an empty name.
    MissingFilename,
    /// The form holds no frame size.
    MissingNewDimensions,
    /// A side of the frame size is zero.
    InvalidNewDimensions,
}

/// The kind of the form field that is called `name`.
pub open spec fn field_of_name(name: Seq<char>) -> FormField {
    if name == "file"@ {
        FormField::File
    } else if name == "new_dimension"@ {
        FormField::NewDimension
    } else {
        FormField::Unknown
    }
}

/// Tells the kind of a form field by its name.
pub fn classify_field(name: &str) -> (field: FormField)
    ensures
        field == field_of_name(name@),
{
    if same_text(name, "file") {
        FormField::File
    } else if same_text(name, "new_dimension") {
        FormField::NewDimension
    } else {
        FormField::Unknown
    }
}

/// The path under which the upload `id` is stored below `directory`.
pub open spec fn upload_path_of(directory: Seq<char>, id: Seq<char>) -> Seq<char> {
    directory + "/uploads/"@ + id + ".mov"@
}

/// Names the file in which the upload `id` is stored below `directory`.
pub fn upload_path(directory: &str, id: &str) -> (path: String)
    ensures
        path@ == upload_path_of(directory@, id@),
{
    let mut path = String::from_str(directory);
    path.append("/uploads/");
    path.append(id);
    path.append(".mov");
    path
}

/// The place of the output that belongs to the input at `input`.
pub open spec fn output_uri_of(input: Seq<char>) -> Seq<char> {
    input + ".mp4"@
}

/// Names the output that belongs to the input at `input`.
pub fn output_uri_for(input: &str) -> (output: String)
    ensures
        output@ == output_uri_of(input@),
{
    let mut output = String::from_str(input);
    output.append(".mp4");
    output
}

/// The job record that the fields of an upload make up: the stored file is
/// the input, the output is named after it, and no audio codec is forced.
/// The file is looked at before the frame size.
pub open spec fn job_of_upload(
    filename: Option<Seq<char>>,
    new_dimensions: Option<Dimensions>,
) -> Result<JobRecord, IngestError> {
    match (filename, new_dimensions) {
        (None, _) => Err(IngestError::MissingFilename),
        (Some(filename), _) if filename.len() == 0 => Err(IngestError::MissingFilename),
        (Some(_), None) => Err(IngestError::MissingNewDimensions),
        (Some(filename), Some(dimensions)) => if dimensions.width() == 0 || dimensions.height()
            == 0 {
            Err(IngestError::InvalidNewDimensions)
        } else {
            Ok(
                JobRecord {
                    input_uri: filename,
                    output_uri: output_uri_of(filename),
                    new_dimensions: dimensions,
                    audio_codec: None,
                },
            )
        },
    }
}

/// Every job record that an upload makes up is valid.
pub proof fn lemma_uploaded_job_is_valid(
    filename: Option<Seq<char>>,
    new_dimensions: Option<Dimensions>,
)
    ensures
        job_of_upload(filename, new_dimensions) matches Ok(job) ==> job.is_valid(),
{
}

/// Makes the job record of an upload from the name under which its file was
/// stored and the frame size that came with it.
pub fn assemble_job(filename: Option<String>, new_dimensions: Option<Dimensions>) -> (job: Result<
    TranscoderJob,
    IngestError,
>)
    ensures
        match job {
            Ok(job) => job_of_upload(
                match filename {
                    Some(filename) => Some(filename@),
                    None => None,
                },
                new_dimensions,
            ) == Ok::<JobRecord, IngestError>(job@),
            Err(error) => job_of_upload(
                match filename {
                    Some(filename) => Some(filename@),
                    None => None,
                },
                new_dimensions,
            ) == Err::<JobRecord, IngestError>(error),
        },
{
    let filename = match filename {
        Some(filename) => filename,
        None => {
            return Err(IngestError::MissingFilename);
        },
    };
    if filename.as_str().is_empty() {
        return Err(IngestError::MissingFilename);
    }
    let dimensions = match new_dimensions {
        Some(dimensions) => dimensions,
        None => {
            return Err(IngestError::MissingNewDimensions);
        },
    };
    if dimensions.width() == 0 || dimensions.height() == 0 {
        return Err(IngestError::InvalidNewDimensions);
    }
    let output = output_uri_for(filename.as_str());
    Ok(TranscoderJob::new(filename, output, dimensions, None))
}

impl IngestError {
    /// The text that tells the uploader what was wrong.
    pub open spec fn spec_message(&self) -> Seq<char> {
        match self {
            IngestError::UnknownField => "unknown field given in multipart"@,
            IngestError::MissingFilename => "missing filename"@,
            IngestError::MissingNewDimensions => "missing new dimensions"@,
            IngestError::InvalidNewDimensions => "invalid new dimensions"@,
        }
    }

    /// Says what was wrong with the upload.
    pub fn message(&self) -> (message: &'static str)
        ensures
            message@ == self.spec_message(),
    {
        match self {
            IngestError::UnknownField => "unknown field given in multipart",
            IngestError::MissingFilename => "missing filename",
            IngestError::MissingNewDimensions => "missing new dimensions",
            IngestError::InvalidNewDimensions => "invalid new dimensions",
        }
    }
}

} // verus!
