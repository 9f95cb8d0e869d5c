//! Which decoder a schedule file calls for, and what loading it comes to.

use vstd::prelude::*;

use crate::meeting::Meeting;

verus! {

/// A document format that schedule files are written in.
#[derive(Clone, Copy, Debug, PartialEq, Eq, Structural)]
pub enum Format {
    Json,
    Toml,
    Yaml,
}

/// Why a schedule file could not be loaded.
#[derive(Clone, Debug)]
pub enum ReadError {
    /// The file could not be read; the message says why.
    IOError(String),
    /// The file is not a valid JSON schedule; the message says where.
    JsonError(String),
    /// The file is not a valid TOML schedule; the message says where.
    TomlError(String),
    /// The file is not a valid YAML schedule; the message says where.
    YamlError(String),
    /// The file's extension names no supported format.
    FormatNotSupported,
}

/// The format that a file extension names, if any. Extensions match exactly, case included.
pub open spec fn format_of_extension(ext: Seq<char>) -> Option<Format> {
    if ext == "json"@ {
        Some(Format::Json)
    } else if ext == "toml"@ {
        Some(Format::Toml)
    } else if ext == "yaml"@ || ext == "yml"@ {
        Some(Format::Yaml)
    } else {
        None
    }
}

/// The extension of the file that `path` names, if it has one.
pub uninterp spec fn path_extension(path: Seq<char>) -> Option<Seq<char>>;

/// The format of the file that `path` names, by its extension.
pub open spec fn format_of_path(path: Seq<char>) -> Option<Format> {
    match path_extension(path) {
        Some(ext) => format_of_extension(ext),
        None => None,
    }
}

/// Relies on `std::path::Path::extension`: the part of the file name after its last dot,
/// if there is one. The extension of a `str` path is valid Unicode, so `to_str` keeps it.
#[verifier::external_body]
fn extension(path: &str) -> (r: Option<String>)
    ensures
        match r {
            Some(e) => path_extension(path@) == Some(e@),
            None => path_extension(path@) is None,
        },
{
    match std::path::Path::new(path).extension() {
        Some(e) => match e.to_str() {
            Some(s) => Some(s.to_string()),
            None => None,
        },
        None => None,
    }
}

/// Whether `a` and `b` hold the same characters.
fn same_text(a: &str, b: &str) -> (r: bool)
    ensures
        r == (a@ == b@),
{
    let n = a.unicode_len();
    if n != b.unicode_len() {
        return false;
    }
    let mut i: usize = 0;
    while i < n
        invariant
            n == a@.len() == b@.len(),
            i <= n,
            forall|k: int| 0 <= k < i ==> a@[k] == b@[k],
        decreases n - i,
    {
        if a.get_char(i) != b.get_char(i) {
            return false;
        }
        i = i + 1;
    }
    assert(a@ =~= b@);
    true
}

impl Format {
    /// The format that the extension `ext` names, if any.
    pub fn from_extension(ext: &str) -> (r: Option<Format>)
        ensures
            r == format_of_extension(ext@),
    {
        if same_text(ext, "json") {
            Some(Format::Json)
        } else if same_text(ext, "toml") {
            Some(Format::Toml)
        } else if same_text(ext, "yaml") || same_text(ext, "yml") {
            Some(Format::Yaml)
        } else {
            None
        }
    }

    /// The format of the file that `path` names, by its extension.
    pub fn of_path(path: &str) -> (r: Option<Format>)
        ensures
            r == format_of_path(path@),
    {
        match extension(path) {
            Some(ext) => Format::from_extension(ext.as_str()),
            None => None,
        }
    }

    /// The error that a document of this format fails to decode with, carrying `message`.
    pub open spec fn decode_error(self, message: String) -> ReadError {
        match self {
            Format::Json => ReadError::JsonError(message),
            Format::Toml => ReadError::TomlError(message),
            Format::Yaml => ReadError::YamlError(message),
        }
    }

    /// What loading a document of this format comes to, given the outcome of decoding it:
    /// all of its meetings, or the decoder's message under this format's error, and never
    /// part of a list.
    pub fn decoded(self, outcome: Result<Vec<Meeting>, String>) -> (r: Result<
        Vec<Meeting>,
        ReadError,
    >)
        ensures
            match outcome {
                Ok(list) => r == Ok::<Vec<Meeting>, ReadError>(list),
                Err(message) => r == Err::<Vec<Meeting>, ReadError>(self.decode_error(message)),
            },
    {
        match outcome {
            Ok(list) => Ok(list),
            Err(message) => Err(
                match self {
                    Format::Json => ReadError::JsonError(message),
                    Format::Toml => ReadError::TomlError(message),
                    Format::Yaml => ReadError::YamlError(message),
                },
            ),
        }
    }
}

impl Meeting {
    /// Decides how the schedule file at `path` is to be decoded, given the outcome of reading
    /// it (its text, or why it could not be read): a failed read is an `IOError`; otherwise
    /// the file's extension picks the format, and an extension that names none is
    /// `FormatNotSupported`, whatever the text.
    pub fn read_meetings(path: &str, read: Result<String, String>) -> (r: Result<
        (Format, String),
        ReadError,
    >)
        ensures
            match read {
                Err(e) => r == Err::<(Format, String), ReadError>(ReadError::IOError(e)),
                Ok(text) => match format_of_path(path@) {
                    Some(f) => r == Ok::<(Format, String), ReadError>((f, text)),
                    None => r == Err::<(Format, String), ReadError>(ReadError::FormatNotSupported),
                },
            },
    {
        match read {
            Err(e) => Err(ReadError::IOError(e)),
            Ok(text) => match Format::of_path(path) {
                Some(f) => Ok((f, text)),
                None => Err(ReadError::FormatNotSupported),
            },
        }
    }
}

} // verus!
