use vstd::prelude::*;

verus! {

/// The operating system the client runs on; a few defaults depend on it.
#[derive(Clone, Copy, Debug, PartialEq, Eq, Structural)]
pub enum Platform {
    MacOs,
    Windows,
    Linux,
}

impl Platform {
    /// Whether the platform is macOS.
    pub open spec fn spec_is_macos(self) -> bool {
        self is MacOs
    }

    /// Whether the platform is macOS.
    pub fn is_macos(self) -> (res: bool)
        ensures
            res == self.spec_is_macos(),
    {
        match self {
            Platform::MacOs => true,
            _ => false,
        }
    }
}

} // verus!
