//! The command that builds the Windows installer package.
use vstd::prelude::*;

verus! {

/// Create a .msi package for Windows. The command takes no options.
#[derive(Clone, Copy, Debug, PartialEq, Eq, Structural)]
pub struct Cli {}

} // verus!
