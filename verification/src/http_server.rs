//! What the file server answers, once the file system has been asked.

use vstd::prelude::*;
use vstd::string::StringExecFns;

verus! {

/// What looking a requested file up came to.
pub enum FileRead {
    /// There is no such file.
    Missing,
    /// The file was read; this is its content.
    Content(String),
    /// The file is there but could not be read; this is the reason.
    Failed(String),
}

/// The status code that answers a lookup: 404 for a missing file, 200 for
/// one that was read, 500 for one that could not be read.
pub open spec fn reply_status(read: FileRead) -> u16 {
    match read {
        FileRead::Missing => 404,
        FileRead::Content(_) => 200,
        FileRead::Failed(_) => 500,
    }
}

/// The body that answers a lookup: a note that names the path for a missing
/// file, the content of one that was read, the reason for one that could not
/// be read.
pub open spec fn reply_body(shown_path: Seq<char>, read: FileRead) -> Seq<char> {
    match read {
        FileRead::Missing => shown_path + " not found"@,
        FileRead::Content(content) => content@,
        FileRead::Failed(reason) => reason@,
    }
}

/// Turns the outcome of a lookup into status code and body. `shown_path` is
/// the path as it is to be quoted to the client.
pub fn file_reply(shown_path: String, read: FileRead) -> (reply: (u16, String))
    ensures
        reply.0 == reply_status(read),
        reply.1@ == reply_body(shown_path@, read),
{
    match read {
        FileRead::Missing => (404, shown_path.concat(" not found")),
        FileRead::Content(content) => (200, content),
        FileRead::Failed(reason) => (500, reason),
    }
}

} // verus!
