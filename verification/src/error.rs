//! The ways in which a download fails, and what the operator is told.

use vstd::prelude::*;

verus! {

/// Why a download was given up. Each failure ends the download: nothing is
/// tried again and nothing already written is taken back.
#[derive(Debug, PartialEq, Eq)]
pub enum DownloadError {
    /// The transport could not complete the request for `url`.
    Request { url: String },
    /// The response to the request for `url` declared no total size.
    MissingLength { url: String },
    /// The destination `path` could not be opened for writing.
    FileCreate { path: String },
    /// A chunk could not be read from the network stream.
    StreamRead,
    /// A chunk could not be written to the destination.
    FileWrite,
}

/// A failure with its texts as sequences of characters.
pub enum DownloadErrorView {
    Request { url: Seq<char> },
    MissingLength { url: Seq<char> },
    FileCreate { path: Seq<char> },
    StreamRead,
    FileWrite,
}

impl DownloadErrorView {
    /// The text shown to the operator for this failure.
    pub open spec fn message(self) -> Seq<char> {
        match self {
            DownloadErrorView::Request { url } => "Failed to GET from '"@ + url + "'"@,
            DownloadErrorView::MissingLength { url } => "Failed to get content length from '"@
                + url + "'"@,
            DownloadErrorView::FileCreate { path } => "Failed to create file '"@ + path + "'"@,
            DownloadErrorView::StreamRead => "Error while downloading file"@,
            DownloadErrorView::FileWrite => "Error while writing to file"@,
        }
    }
}

impl View for DownloadError {
    type V = DownloadErrorView;

    open spec fn view(&self) -> DownloadErrorView {
        match self {
            DownloadError::Request { url } => DownloadErrorView::Request { url: url@ },
            DownloadError::MissingLength { url } => DownloadErrorView::MissingLength { url: url@ },
            DownloadError::FileCreate { path } => DownloadErrorView::FileCreate { path: path@ },
            DownloadError::StreamRead => DownloadErrorView::StreamRead,
            DownloadError::FileWrite => DownloadErrorView::FileWrite,
        }
    }
}

/// `subject` between `opening` and a closing quote.
fn quoted(opening: &str, subject: &str) -> (text: String)
    ensures
        text@ == opening@ + subject@ + "'"@,
{
    let mut text = String::from_str(opening);
    text.append(subject);
    text.append("'");
    text
}

impl DownloadError {
    /// The text shown to the operator for this failure. A failed request and
    /// a missing size name the source, a file that cannot be created names
    /// the destination, and the two failures in mid-stream name neither.
    pub fn message(&self) -> (text: String)
        ensures
            text@ == self@.message(),
    {
        match self {
            DownloadError::Request { url } => quoted("Failed to GET from '", url.as_str()),
            DownloadError::MissingLength { url } => quoted(
                "Failed to get content length from '",
                url.as_str(),
            ),
            DownloadError::FileCreate { path } => quoted("Failed to create file '", path.as_str()),
            DownloadError::StreamRead => String::from_str("Error while downloading file"),
            DownloadError::FileWrite => String::from_str("Error while writing to file"),
        }
    }
}

} // verus!
