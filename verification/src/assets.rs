//! The icon vocabulary of the interface and each icon's glyph in the icon
//! font.

use vstd::prelude::*;

verus! {

/// The icons the interface uses, as a closed set.
#[derive(Debug, Clone, Copy, PartialEq, Eq, Structural)]
pub enum Icon {
    Help,
    SystemInfo,
    Clipboard,
    Close,
    Folder,
    FolderTree,
    MagnifyingGlass,
}

impl Icon {
    /// The code point of the icon in the bundled icon font.
    pub open spec fn glyph_spec(self) -> char {
        match self {
            Icon::Help => '\u{f059}',
            Icon::SystemInfo => '\u{f05a}',
            Icon::Clipboard => '\u{f328}',
            Icon::Close => '\u{f00d}',
            Icon::Folder => '\u{f07b}',
            Icon::FolderTree => '\u{f802}',
            Icon::MagnifyingGlass => '\u{f002}',
        }
    }

    pub fn glyph(self) -> (r: char)
        ensures
            r == self.glyph_spec(),
    {
        match self {
            Icon::Help => '\u{f059}',
            Icon::SystemInfo => '\u{f05a}',
            Icon::Clipboard => '\u{f328}',
            Icon::Close => '\u{f00d}',
            Icon::Folder => '\u{f07b}',
            Icon::FolderTree => '\u{f802}',
            Icon::MagnifyingGlass => '\u{f002}',
        }
    }
}

} // verus!
