//! Plain configuration values, as the command-line layer hands them over.

use vstd::prelude::*;

verus! {

/// The user's configuration for one toggle invocation: the manager's socket
/// path, the command to launch (first element) with its arguments (the rest),
/// the scratchpad size per axis in percent of the focused display or in
/// absolute pixels (a pixel value of zero means "use the percent value"),
/// and the name under which the scratchpad's window is tagged.
#[derive(Clone, Debug)]
pub struct Args {
    pub sock: String,
    pub command: Vec<String>,
    pub width: u64,
    pub height: u64,
    pub width_px: u64,
    pub height_px: u64,
    pub mark: String,
}

} // verus!
