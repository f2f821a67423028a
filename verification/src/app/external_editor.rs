//! A prepared hand-off of one blob to the external editor. The core only
//! assembles the session: the editor command, the display name (whose suffix
//! steers the editor's own syntax detection) and the raw content for the
//! scratch file. Writing that file, suspending the terminal and waiting for
//! the child process are the host's blocking steps.

use vstd::prelude::*;
use vstd::string::StringExecFns;

verus! {

/// One editor session over one blob's content.
pub struct ExternalEditor {
    pub editor: String,
    pub name: String,
    pub content: Vec<u8>,
}

impl ExternalEditor {
    pub fn new(blob_content: &Vec<u8>, name: &str, editor: &str) -> (r: ExternalEditor)
        ensures
            r.editor@ == editor@,
            r.name@ == name@,
            r.content@ == blob_content@,
    {
        let content = blob_content.clone();
        proof {
            assert(content@ =~= blob_content@);
        }
        ExternalEditor { editor: String::from_str(editor), name: String::from_str(name), content }
    }
}

} // verus!
