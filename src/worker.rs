//! A worker for timing fits.
use vstd::prelude::*;
use crate::external_tools::string_views;

verus! {

/// Runs timing fits; the fit itself is the external `tempo2` program.
#[derive(Debug)]
pub struct Worker {}

impl Worker {
    pub fn new() -> (r: Self) {
        Worker {}
    }

    /// The arguments of `tempo2` for a fit of a timing model to arrival times.
    pub fn tempo2_args(&self, par_file: &str, tim_file: &str) -> (r: Vec<String>)
        ensures
            string_views(r@) == seq!["-f"@, par_file@, tim_file@],
    {
        let r = vec![String::from_str("-f"), String::from_str(par_file), String::from_str(tim_file)];
        assert(string_views(r@) =~= seq!["-f"@, par_file@, tim_file@]);
        r
    }
}

} // verus!
