//! The supported interpreter releases and what is fixed per release.

use vstd::prelude::*;

verus! {

/// A supported interpreter release.
#[derive(Debug, Clone, Copy, PartialEq, Eq, Structural)]
pub enum Version {
    Lua51,
    Lua52,
    Lua53,
    Lua54,
}

impl Version {
    /// Base name of the library that is produced for this release.
    pub open spec fn spec_lib_name(self) -> Seq<char> {
        match self {
            Version::Lua51 => "lua5.1"@,
            Version::Lua52 => "lua5.2"@,
            Version::Lua53 => "lua5.3"@,
            Version::Lua54 => "lua5.4"@,
        }
    }

    /// Name of the directory that holds the sources of this release.
    pub open spec fn spec_source_dir_name(self) -> Seq<char> {
        match self {
            Version::Lua51 => "lua-5.1.5"@,
            Version::Lua52 => "lua-5.2.4"@,
            Version::Lua53 => "lua-5.3.6"@,
            Version::Lua54 => "lua-5.4.7"@,
        }
    }

    /// The release ships the bit-manipulation library.
    pub open spec fn has_bit_library(self) -> bool {
        self == Version::Lua52 || self == Version::Lua53
    }

    /// The release ships the coroutine library and the character-type
    /// support as files of their own.
    pub open spec fn has_coroutine_library(self) -> bool {
        self != Version::Lua51
    }

    /// The release ships the utf8 library.
    pub open spec fn has_utf8_library(self) -> bool {
        self == Version::Lua53 || self == Version::Lua54
    }

    /// Base name of the library that is produced for this release.
    pub fn lib_name(self) -> (name: &'static str)
        ensures
            name@ == self.spec_lib_name(),
    {
        match self {
            Version::Lua51 => "lua5.1",
            Version::Lua52 => "lua5.2",
            Version::Lua53 => "lua5.3",
            Version::Lua54 => "lua5.4",
        }
    }

    /// Name of the directory that holds the sources of this release.
    pub fn source_dir_name(self) -> (name: &'static str)
        ensures
            name@ == self.spec_source_dir_name(),
    {
        match self {
            Version::Lua51 => "lua-5.1.5",
            Version::Lua52 => "lua-5.2.4",
            Version::Lua53 => "lua-5.3.6",
            Version::Lua54 => "lua-5.4.7",
        }
    }
}

} // verus!
