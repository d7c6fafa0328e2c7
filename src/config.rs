//! The one piece of process-wide state: the directory in which the settings
//! file is looked up. Absent means the client's default location. Writes
//! replace the value; the last writer wins.

use vstd::prelude::*;

verus! {

pub struct ConfigDir {
    pub path: Option<String>,
}

impl ConfigDir {
    /// A setting that points at the default location.
    pub fn new() -> (c: ConfigDir)
        ensures
            c.path is None,
    {
        ConfigDir { path: None }
    }

    /// Sets the directory; earlier values are forgotten.
    pub fn set(&mut self, new_path: String)
        ensures
            final(self).path == Some(new_path),
    {
        self.path = Some(new_path);
    }

    /// The directory in effect, if one was set.
    pub fn path(&self) -> (r: Option<String>)
        ensures
            r == self.path,
    {
        match &self.path {
            Some(p) => Some(p.clone()),
            None => None,
        }
    }
}

} // verus!
