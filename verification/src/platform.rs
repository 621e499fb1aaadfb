//! The desktop platforms that the decisions tell apart.

use vstd::prelude::*;

verus! {

/// A desktop platform.
#[derive(Clone, Copy, Debug, PartialEq, Eq, Structural)]
pub enum Platform {
    /// macOS.
    MacOs,
    /// Windows.
    Windows,
    /// Anything else; it has neither a hook nor a tray nor autostart.
    Other,
}

} // verus!
