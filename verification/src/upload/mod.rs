//! What is uploaded, under which name, and where to.

use tokio::fs::File;
use vstd::prelude::*;
use vstd::std_specs::convert::FromSpecImpl;
use vstd::string::*;

verus! {

/// Where files are uploaded to unless the options say otherwise.
pub const UPLOAD_ENDPOINT: &'static str = "https://upload.imagekit.io/api/v1/files/upload";

/// The name of a file that was given none.
pub const UNTITLED: &'static str = "untitled";

/// The status of an answer that describes the uploaded file.
pub const UPLOADED: u16 = 200;

/// `tokio::fs::File`, carried as it is to where the upload is sent.
#[verifier::external_type_specification]
#[verifier::external_body]
pub struct ExFile(tokio::fs::File);

/// The content to upload: an open file that is read as it is sent, or
/// bytes held in memory.
pub enum UploadFile {
    Binary(File),
    Bytes(Vec<u8>),
}

impl From<File> for UploadFile {
    fn from(file: File) -> (upload: Self) {
        UploadFile::Binary(file)
    }
}

impl FromSpecImpl<File> for UploadFile {
    open spec fn obeys_from_spec() -> bool {
        true
    }

    open spec fn from_spec(file: File) -> Self {
        UploadFile::Binary(file)
    }
}

impl From<Vec<u8>> for UploadFile {
    fn from(value: Vec<u8>) -> (upload: Self) {
        UploadFile::Bytes(value)
    }
}

impl FromSpecImpl<Vec<u8>> for UploadFile {
    open spec fn obeys_from_spec() -> bool {
        true
    }

    open spec fn from_spec(value: Vec<u8>) -> Self {
        UploadFile::Bytes(value)
    }
}

/// An upload: the content, the name that the file gets, and the endpoint
/// that receives it.
pub struct Options {
    endpoint: String,
    file: UploadFile,
    file_name: String,
}

/// What an [`Options`] holds.
pub struct OptionsView {
    pub endpoint: Seq<char>,
    pub file: UploadFile,
    pub file_name: Seq<char>,
}

impl View for Options {
    type V = OptionsView;

    closed spec fn view(&self) -> OptionsView {
        OptionsView { endpoint: self.endpoint@, file: self.file, file_name: self.file_name@ }
    }
}

impl Default for Options {
    fn default() -> (options: Self)
        ensures
            options@.endpoint == UPLOAD_ENDPOINT@,
            options@.file matches UploadFile::Bytes(bytes) && bytes@.len() == 0,
            options@.file_name == UNTITLED@,
    {
        Options {
            endpoint: String::from_str(UPLOAD_ENDPOINT),
            file: UploadFile::Bytes(Vec::new()),
            file_name: String::from_str(UNTITLED),
        }
    }
}

impl Options {
    /// An upload of `file` under the name `file_name`, to the default
    /// endpoint.
    pub fn new(file: UploadFile, file_name: &str) -> (options: Self)
        ensures
            options@ == (OptionsView {
                endpoint: UPLOAD_ENDPOINT@,
                file,
                file_name: file_name@,
            }),
    {
        Options {
            endpoint: String::from_str(UPLOAD_ENDPOINT),
            file,
            file_name: String::from_str(file_name),
        }
    }

    /// Sets the endpoint that receives the upload.
    pub fn endpoint(self, endpoint: &str) -> (options: Self)
        ensures
            options@ == (OptionsView { endpoint: endpoint@, ..self@ }),
    {
        Options { endpoint: String::from_str(endpoint), ..self }
    }

    /// Takes the options apart: the endpoint, the content and the file's
    /// name.
    pub fn into_parts(self) -> (parts: (String, UploadFile, String))
        ensures
            parts.0@ == self@.endpoint,
            parts.1 == self@.file,
            parts.2@ == self@.file_name,
    {
        (self.endpoint, self.file, self.file_name)
    }
}

/// Whether an answer with this status describes the uploaded file.
pub fn is_uploaded(status: u16) -> (uploaded: bool)
    ensures
        uploaded == (status == UPLOADED),
{
    status == UPLOADED
}

} // verus!
