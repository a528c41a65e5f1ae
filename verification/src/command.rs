use vstd::prelude::*;

verus! {

/// Command-line request: an optional path to a source file.
/// With a path the file is run once; without one an interactive
/// session is expected.  Argument reading itself is left to the driver.
pub struct CLI {
    pub path: Option<String>,
}

} // verus!
