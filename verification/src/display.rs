//! What the progress display is given to show: its layout and its two messages.

use vstd::prelude::*;

verus! {

/// The layout of the display: the message on a line of its own, then a
/// spinner, the elapsed time, the bar, the bytes so far and in all, the rate
/// and the time still expected.
pub const BAR_TEMPLATE: &'static str =
    "{msg}\n{spinner:.green} [{elapsed_precise}] [{wide_bar:.cyan/blue}] {bytes}/{total_bytes} ({bytes_per_sec}, {eta})";

/// The characters of the bar: filled, current and empty.
pub const BAR_CHARS: &'static str = "#>-";

/// The message shown while `url` is being downloaded.
pub open spec fn downloading(url: Seq<char>) -> Seq<char> {
    "Downloading "@ + url
}

/// The message shown once `url` has been stored at `path`.
pub open spec fn downloaded(url: Seq<char>, path: Seq<char>) -> Seq<char> {
    "Downloaded "@ + url + " to "@ + path
}

/// Builds the message shown while `url` is being downloaded.
pub fn download_message(url: &str) -> (message: String)
    ensures
        message@ == downloading(url@),
{
    let mut message = String::from_str("Downloading ");
    message.append(url);
    message
}

/// Builds the message shown once `url` has been stored at `path`.
pub fn finish_message(url: &str, path: &str) -> (message: String)
    ensures
        message@ == downloaded(url@, path@),
{
    let mut message = String::from_str("Downloaded ");
    message.append(url);
    message.append(" to ");
    message.append(path);
    message
}

} // verus!
