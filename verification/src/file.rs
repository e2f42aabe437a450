//! What a request to write one file carries.

use vstd::prelude::*;

verus! {

/// The body of a request to write one file: where the file goes, what it
/// holds, the message of the commit, and the branch that receives it.
#[derive(Clone, Debug, PartialEq, Eq)]
pub struct CreateFileInput {
    pub file_path: String,
    pub file_content: String,
    pub commit_message: String,
    pub branch: String,
}

} // verus!
