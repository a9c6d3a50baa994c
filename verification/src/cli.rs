//! Command-line interface definitions.

use vstd::prelude::*;

verus! {

/// Command-line argument structure.
///
/// The binary parses the process arguments into its own mirror of this
/// struct and hands the values over; the library only defines the shape
/// and the meaning of the fields.
pub struct Cli {
    /// Path to the configuration file
    pub config_file: String,
    /// Enable verbose logging
    pub verbose: bool,
    /// Override email notification setting
    pub email: Option<bool>,
}

} // verus!
