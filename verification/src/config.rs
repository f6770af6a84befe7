//! The settings of one build.

use crate::paths::empty_path;
use crate::paths::path_units;
use std::path::PathBuf;
use vstd::prelude::*;

verus! {

/// Where a build reads from and writes to. Both directories are canonical
/// absolute paths; every path of a scanned tree lies under `input_dir`.
#[derive(Debug)]
pub struct Config {
    pub site_name: String,
    pub input_dir: PathBuf,
    pub output_dir: PathBuf,
}

impl Default for Config {
    /// The empty configuration: no name and no directories.
    fn default() -> (config: Config)
        ensures
            config.site_name@ == Seq::<char>::empty(),
            path_units(config.input_dir) == Seq::<u8>::empty(),
            path_units(config.output_dir) == Seq::<u8>::empty(),
    {
        Config { site_name: String::new(), input_dir: empty_path(), output_dir: empty_path() }
    }
}

} // verus!
