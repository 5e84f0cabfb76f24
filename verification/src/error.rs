//! The error taxonomy and how each error is shown to a caller.

use vstd::prelude::*;
use vstd::string::*;

verus! {

/// Everything that can go wrong, each with the text that explains it.
#[derive(Debug)]
pub enum Error {
    /// The identifier is not in the registry.
    ModelNotFound(String),
    /// Configuration, weights or tokenizer of a model are missing or malformed.
    ModelLoadFailed(String),
    /// The request itself is unusable, such as an empty list of texts.
    InvalidInput(String),
    /// Fetching a model from its remote repository failed.
    DownloadFailed(String),
    /// The process configuration is unusable.
    ConfigError(String),
    /// Tokenizing or pooling failed on a model that had loaded.
    EmbeddingError(String),
    /// Reading or writing a file failed.
    Io(String),
    /// A registry or configuration record could not be encoded or decoded.
    Serialization(String),
}

/// Status of a reply to a request that names an unknown model.
pub const STATUS_NOT_FOUND: u16 = 404;

/// Status of a reply to a request that is itself unusable.
pub const STATUS_BAD_REQUEST: u16 = 400;

/// Status of a reply to a request that failed inside the service.
pub const STATUS_INTERNAL_ERROR: u16 = 500;

impl Error {
    /// The text carried by the error, whatever its kind.
    pub open spec fn detail(self) -> Seq<char> {
        match self {
            Error::ModelNotFound(s) => s@,
            Error::ModelLoadFailed(s) => s@,
            Error::InvalidInput(s) => s@,
            Error::DownloadFailed(s) => s@,
            Error::ConfigError(s) => s@,
            Error::EmbeddingError(s) => s@,
            Error::Io(s) => s@,
            Error::Serialization(s) => s@,
        }
    }

    /// The words that introduce an error of this kind.
    pub open spec fn heading(self) -> Seq<char> {
        match self {
            Error::ModelNotFound(_) => "Model not found: "@,
            Error::ModelLoadFailed(_) => "Failed to load model: "@,
            Error::InvalidInput(_) => "Invalid input: "@,
            Error::DownloadFailed(_) => "Download failed: "@,
            Error::ConfigError(_) => "Configuration error: "@,
            Error::EmbeddingError(_) => "Embedding error: "@,
            Error::Io(_) => "IO error: "@,
            Error::Serialization(_) => "Serialization error: "@,
        }
    }

    /// The full description: heading, then detail.
    pub open spec fn description(self) -> Seq<char> {
        self.heading() + self.detail()
    }

    /// Whether the description may be shown to a remote caller.
    pub open spec fn is_disclosed(self) -> bool {
        self is ModelNotFound || self is InvalidInput || self is ModelLoadFailed
            || self is EmbeddingError
    }

    /// The status a reply carrying this error has.
    pub open spec fn status(self) -> u16 {
        match self {
            Error::ModelNotFound(_) => STATUS_NOT_FOUND,
            Error::InvalidInput(_) => STATUS_BAD_REQUEST,
            _ => STATUS_INTERNAL_ERROR,
        }
    }

    /// What a reply carrying this error says.
    pub open spec fn reply_text(self) -> Seq<char> {
        if self.is_disclosed() {
            self.description()
        } else {
            "Internal server error"@
        }
    }

    /// Renders the error for a person: heading, then detail.
    pub fn message(&self) -> (text: String)
        ensures
            text@ == self.description(),
    {
        match self {
            Error::ModelNotFound(s) => String::from_str("Model not found: ").concat(s.as_str()),
            Error::ModelLoadFailed(s) => String::from_str("Failed to load model: ").concat(
                s.as_str(),
            ),
            Error::InvalidInput(s) => String::from_str("Invalid input: ").concat(s.as_str()),
            Error::DownloadFailed(s) => String::from_str("Download failed: ").concat(s.as_str()),
            Error::ConfigError(s) => String::from_str("Configuration error: ").concat(s.as_str()),
            Error::EmbeddingError(s) => String::from_str("Embedding error: ").concat(s.as_str()),
            Error::Io(s) => String::from_str("IO error: ").concat(s.as_str()),
            Error::Serialization(s) => String::from_str("Serialization error: ").concat(
                s.as_str(),
            ),
        }
    }

    /// The status of the reply that reports this error: 404 for an unknown
    /// model, 400 for unusable input, 500 for everything else.
    pub fn status_code(&self) -> (code: u16)
        ensures
            code == self.status(),
    {
        match self {
            Error::ModelNotFound(_) => STATUS_NOT_FOUND,
            Error::InvalidInput(_) => STATUS_BAD_REQUEST,
            _ => STATUS_INTERNAL_ERROR,
        }
    }

    /// The text of the reply that reports this error. Errors about the model
    /// or the input are described; the others are not disclosed.
    pub fn reply_message(&self) -> (text: String)
        ensures
            text@ == self.reply_text(),
    {
        match self {
            Error::ModelNotFound(_) => self.message(),
            Error::InvalidInput(_) => self.message(),
            Error::ModelLoadFailed(_) => self.message(),
            Error::EmbeddingError(_) => self.message(),
            _ => String::from_str("Internal server error"),
        }
    }
}

/// `e` reports that a model could not be loaded, with exactly this detail.
pub open spec fn is_load_failure(e: Error, detail: Seq<char>) -> bool {
    e is ModelLoadFailed && e.detail() == detail
}

/// `e` reports that embedding failed, with exactly this detail.
pub open spec fn is_embedding_failure(e: Error, detail: Seq<char>) -> bool {
    e is EmbeddingError && e.detail() == detail
}

/// `e` reports unusable input, with exactly this detail.
pub open spec fn is_invalid_input(e: Error, detail: Seq<char>) -> bool {
    e is InvalidInput && e.detail() == detail
}

/// `e` reports an unknown model, named by this detail.
pub open spec fn is_model_not_found(e: Error, detail: Seq<char>) -> bool {
    e is ModelNotFound && e.detail() == detail
}

/// `e` reports a failed download, with exactly this detail.
pub open spec fn is_download_failure(e: Error, detail: Seq<char>) -> bool {
    e is DownloadFailed && e.detail() == detail
}

/// Joins a fixed heading and a detail into one text.
pub fn labelled(heading: &str, detail: &str) -> (text: String)
    ensures
        text@ == heading@ + detail@,
{
    String::from_str(heading).concat(detail)
}

} // verus!
