//! The configuration stored inside every package archive.
use vstd::prelude::*;

verus! {

/// What a package archive records about the environment it was made for.
#[derive(Debug)]
pub struct SerdeConfig {
    /// The Python version the package was downloaded for.
    pub python_version: String,
    /// The package version that was asked for, or `null`.
    pub package_version: String,
}

/// The contents of a [`SerdeConfig`].
pub struct ConfigView {
    pub python_version: Seq<char>,
    pub package_version: Seq<char>,
}

impl View for SerdeConfig {
    type V = ConfigView;

    open spec fn view(&self) -> ConfigView {
        ConfigView { python_version: self.python_version@, package_version: self.package_version@ }
    }
}

} // verus!
