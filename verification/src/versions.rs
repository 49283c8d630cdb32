//! The versions of the tools that are installed at a fixed version.

use vstd::prelude::*;

verus! {

/// The version of `typos-cli` that the typos check installs.
pub const TYPOS_VERSION: &'static str = "1.23.4";

} // verus!
