//! The JSON-lines event log of a node.
use vstd::prelude::*;
use vstd::string::StringExecFns;

verus! {

/// A log that appends one JSON line per envelope to the file at its path.
#[derive(Clone, Debug)]
pub struct EventLogger {
    path: String,
}

impl EventLogger {
    /// A logger writing to `path`.
    pub fn new(path: &str) -> (l: EventLogger)
        ensures
            l.path()@ == path@,
    {
        EventLogger { path: String::from_str(path) }
    }

    /// The file the log appends to.
    pub closed spec fn path(&self) -> String {
        self.path
    }

    /// The file the log appends to.
    pub fn file_path(&self) -> (r: &str)
        ensures
            r@ == self.path()@,
    {
        self.path.as_str()
    }
}

} // verus!
