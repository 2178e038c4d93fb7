//! The two families of operating system that the supervisor tells apart.

use vstd::prelude::*;

verus! {

/// The operating system the supervisor runs on, as far as commands and paths
/// differ by it.
#[derive(Clone, Copy, Debug, PartialEq, Eq, Structural)]
pub enum Platform {
    Windows,
    Unix,
}

impl Platform {
    /// The character this platform writes between the parts of a path.
    pub open spec fn separator(self) -> char {
        match self {
            Platform::Windows => '\\',
            Platform::Unix => '/',
        }
    }

    /// Whether this platform reads `c` as the end of a part of a path.
    pub open spec fn separates(self, c: char) -> bool {
        match self {
            Platform::Windows => c == '\\' || c == '/',
            Platform::Unix => c == '/',
        }
    }

    /// The separator as a string.
    pub fn separator_str(self) -> (s: &'static str)
        ensures
            s@ == seq![self.separator()],
    {
        proof {
            reveal_strlit("\\");
            reveal_strlit("/");
        }
        let s = match self {
            Platform::Windows => "\\",
            Platform::Unix => "/",
        };
        assert(s@ =~= seq![self.separator()]);
        s
    }

    /// Tests a character against `separates`.
    pub fn is_separator(self, c: char) -> (b: bool)
        ensures
            b == self.separates(c),
    {
        match self {
            Platform::Windows => c == '\\' || c == '/',
            Platform::Unix => c == '/',
        }
    }
}

} // verus!
