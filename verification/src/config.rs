//! The configuration model: pure data, loaded once by the caller and read-only
//! afterwards.

pub mod xtask;

use vstd::prelude::*;
use xtask::Xtask;

verus! {

/// Everything that validation reads from the project's configuration.
#[derive(Clone, Debug, PartialEq, Eq)]
pub struct Config {
    /// Expected tool versions, naming conventions and search-path hints.
    pub xtask: Xtask,
    /// The release channel under which toolchain components run unless they
    /// ask for the nightly one.
    pub stable_toolchain: String,
}

impl Config {
    /// The maps of the configuration are well-formed.
    pub open spec fn wf(&self) -> bool {
        self.xtask.wf()
    }
}

} // verus!
