//! Expected tool versions, name-suffix conventions, version matchers and
//! platform-specific search-path hints.

use crate::ordered_map::OrderedMap;
use vstd::prelude::*;

verus! {

/// The tool settings of the project.
#[derive(Clone, Debug, PartialEq, Eq)]
pub struct Xtask {
    pub clang: XtaskClang,
    pub rust: XtaskRust,
}

/// Settings of the compiler suite and its subordinate tools.
#[derive(Clone, Debug, PartialEq, Eq)]
pub struct XtaskClang {
    /// Per tool, the pattern whose first capture group is the version that
    /// the tool reports. A tool without an entry is accepted as soon as it
    /// runs successfully.
    pub matchers: OrderedMap<String>,
    pub platform: XtaskPlatform,
    /// What versioned installations append to a tool's name, such as `-16`.
    pub suffix: String,
    /// The text that a reported version has to begin with.
    pub version: String,
}

/// Settings that apply to one operating system each.
#[derive(Clone, Debug, PartialEq, Eq)]
pub struct XtaskPlatform {
    pub macos: XtaskPlatformMacos,
}

/// Where to look for the tools on macOS, beyond the ambient search path.
#[derive(Clone, Debug, PartialEq, Eq)]
pub struct XtaskPlatformMacos {
    pub search_paths: Vec<XtaskPlatformMacosSearchPath>,
}

/// A source of additional search locations.
#[derive(Clone, Copy, Debug, PartialEq, Eq, Structural)]
pub enum XtaskPlatformMacosSearchPath {
    /// The install prefix of the Homebrew package manager.
    Homebrew,
}

/// Settings of the package manager's toolchain.
#[derive(Clone, Debug, PartialEq, Eq)]
pub struct XtaskRust {
    /// The known toolchain components, by name.
    pub components: OrderedMap<XtaskRustComponent>,
    pub toolchain: XtaskRustToolchain,
}

/// One toolchain component.
#[derive(Clone, Debug, PartialEq, Eq)]
pub struct XtaskRustComponent {
    /// `nightly` where the component needs the nightly channel.
    pub toolchain: String,
}

/// The release channels that the project pins.
#[derive(Clone, Debug, PartialEq, Eq)]
pub struct XtaskRustToolchain {
    /// The full name of the nightly channel, such as `nightly-2024-01-01`.
    pub nightly: String,
}

impl Xtask {
    /// The maps of the settings are well-formed.
    pub open spec fn wf(&self) -> bool {
        self.clang.matchers.wf() && self.rust.components.wf()
    }
}

} // verus!
