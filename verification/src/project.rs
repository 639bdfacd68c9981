//! A loaded project's location on disk.

use vstd::prelude::*;
use vstd::string::StringExecFns;

verus! {

/// Where a project lives; the path is carried as plain text and all
/// file access stays with the host.
#[derive(Clone, Debug)]
pub struct ProjectData {
    pub path: String,
}

impl ProjectData {
    /// The path of the window-layout settings file inside the project.
    pub fn ini_path(&self) -> (r: String)
        ensures
            r@ == self.path@ + "/imgui.ini"@,
    {
        self.path.clone().concat("/imgui.ini")
    }
}

} // verus!
