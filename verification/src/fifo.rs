//! The named pipe through which clients submit triggers.
//!
//! Creating, opening, and deleting the pipe on the filesystem is I/O and
//! lives outside this library; here we only model the pipe's location.

use vstd::prelude::*;
use vstd::string::StringExecFns;

verus! {

/// filename of the pipe, relative to the directory the server runs in
pub const FILE_NAME: &'static str = ".contest.tmp";

/// A FIFO pipe at a fixed place in a directory.
pub struct Fifo {
    pub filepath: String,
}

impl Fifo {
    /// constructs a fifo pipe in the given directory
    pub fn in_dir(dirpath: &str) -> (r: Fifo)
        ensures
            r.filepath@ == dirpath@ + "/"@ + FILE_NAME@,
    {
        let mut path = String::new();
        path.append(dirpath);
        path.append("/");
        path.append(FILE_NAME);
        Fifo { filepath: path }
    }

    /// provides the path of this pipe as a string
    pub fn path_str(&self) -> (r: String)
        ensures
            r@ == self.filepath@,
    {
        self.filepath.clone()
    }
}

} // verus!
