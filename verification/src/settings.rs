//! The preprocessor symbols and compiler flags of a build.

use crate::platform::Platform;
use crate::text::str_eq;
use crate::version::Version;
use vstd::prelude::*;

verus! {

/// How the produced library is meant to be linked.
#[derive(Debug, Clone, Copy, PartialEq, Eq, Structural)]
pub enum Linkage {
    /// A static library, the default.
    Static,
    /// Symbols are exported as from a DLL of the Windows family.
    WindowsDll,
    /// Position-independent code with default symbol visibility, for a
    /// shared object.
    SharedObject,
}

/// What the caller's build configuration switches on.
#[derive(Debug, Clone, Copy, PartialEq, Eq, Structural)]
pub struct Switches {
    /// The vendor-specific symbol of the newest release is defined.
    pub ucid: bool,
    /// The compiled library checks the arguments of its API calls.
    pub api_check: bool,
    /// The interpreter's user-configuration header is redirected.
    pub thread: bool,
    pub linkage: Linkage,
}

/// A preprocessor symbol with its value, if it has one.
pub type Define = (&'static str, Option<&'static str>);

/// A compiler flag; the second component is set where the flag is passed
/// only to a compiler that accepts it.
pub type Flag = (&'static str, bool);

/// The linkage that follows from the request for a dynamic library and the
/// family of the target. `None` where a dynamic library is asked for and the
/// family is not known.
pub open spec fn spec_linkage(build_dylib: bool, target_family: Option<Seq<char>>) -> Option<
    Linkage,
> {
    if !build_dylib {
        Some(Linkage::Static)
    } else {
        match target_family {
            None => None,
            Some(family) => if family == "windows"@ {
                Some(Linkage::WindowsDll)
            } else {
                Some(Linkage::SharedObject)
            },
        }
    }
}

/// The linkage that follows from the request for a dynamic library and the
/// family of the target.
pub fn linkage(build_dylib: bool, target_family: Option<&str>) -> (chosen: Option<Linkage>)
    ensures
        chosen == spec_linkage(
            build_dylib,
            match target_family {
                Some(family) => Some(family@),
                None => None,
            },
        ),
{
    if !build_dylib {
        return Some(Linkage::Static);
    }
    match target_family {
        None => None,
        Some(family) => {
            if str_eq(family, "windows") {
                Some(Linkage::WindowsDll)
            } else {
                Some(Linkage::SharedObject)
            }
        },
    }
}

/// The symbols that the newest release adds: compatibility with its
/// predecessor's API and, where asked for, the vendor-specific symbol.
pub open spec fn release_defines(version: Version, ucid: bool) -> Seq<
    (Seq<char>, Option<Seq<char>>),
> {
    if version != Version::Lua54 {
        seq![]
    } else if ucid {
        seq![("LUA_COMPAT_5_3"@, None), ("LUA_UCID"@, None)]
    } else {
        seq![("LUA_COMPAT_5_3"@, None)]
    }
}

/// The preprocessor symbols of a build, in the order in which they are
/// defined: the platform's, the release's, then those that the switches ask
/// for.
pub open spec fn spec_defines(version: Version, platform: Platform, switches: Switches) -> Seq<
    (Seq<char>, Option<Seq<char>>),
> {
    seq![(platform.spec_define(), None::<Seq<char>>)] + release_defines(version, switches.ucid) + (
    if switches.api_check {
        seq![("LUA_USE_APICHECK"@, None::<Seq<char>>)]
    } else {
        seq![]
    }) + (if switches.thread {
        seq![("LUA_USER_H"@, Some("\"../ezlua/ezlua.h\""@))]
    } else {
        seq![]
    }) + (if switches.linkage == Linkage::WindowsDll {
        seq![("LUA_CORE"@, None::<Seq<char>>), ("LUA_BUILD_AS_DLL"@, None::<Seq<char>>)]
    } else {
        seq![]
    })
}

/// The compiler flags of a build, in the order in which they are passed.
pub open spec fn spec_flags(platform: Platform, linkage: Linkage) -> Seq<(Seq<char>, bool)> {
    (if platform.spec_is_cpp() {
        seq![("-fexceptions"@, false)]
    } else {
        seq![]
    }) + (if linkage == Linkage::SharedObject {
        seq![("-fvisibility=default"@, false)]
    } else {
        seq![]
    }) + seq![("-w"@, false), ("-fno-common"@, true)]
}

/// The instructions to the caller's build system that go out before the
/// sources are compiled.
pub open spec fn spec_link_directives(linkage: Linkage) -> Seq<Seq<char>> {
    if linkage == Linkage::SharedObject {
        seq!["cargo:rustc-cdylib-link-arg=-fvisibility=default"@]
    } else {
        seq![]
    }
}

/// The preprocessor symbols of a build, in the order in which they are
/// defined.
pub fn defines(version: Version, platform: Platform, switches: Switches) -> (symbols: Vec<Define>)
    ensures
        symbols.deep_view() == spec_defines(version, platform, switches),
{
    let mut symbols: Vec<Define> = Vec::new();
    symbols.push((platform.define(), None));
    if version == Version::Lua54 {
        symbols.push(("LUA_COMPAT_5_3", None));
        if switches.ucid {
            symbols.push(("LUA_UCID", None));
        }
    }
    if switches.api_check {
        symbols.push(("LUA_USE_APICHECK", None));
    }
    if switches.thread {
        symbols.push(("LUA_USER_H", Some("\"../ezlua/ezlua.h\"")));
    }
    if switches.linkage == Linkage::WindowsDll {
        symbols.push(("LUA_CORE", None));
        symbols.push(("LUA_BUILD_AS_DLL", None));
    }
    symbols
}

/// The compiler flags of a build, in the order in which they are passed.
pub fn flags(platform: Platform, linkage: Linkage) -> (passed: Vec<Flag>)
    ensures
        passed.deep_view() == spec_flags(platform, linkage),
{
    let mut passed: Vec<Flag> = Vec::new();
    if platform.is_cpp() {
        passed.push(("-fexceptions", false));
    }
    if linkage == Linkage::SharedObject {
        passed.push(("-fvisibility=default", false));
    }
    passed.push(("-w", false));
    passed.push(("-fno-common", true));
    passed
}

/// The instructions to the caller's build system that go out before the
/// sources are compiled.
pub fn link_directives(linkage: Linkage) -> (lines: Vec<&'static str>)
    ensures
        lines.deep_view() == spec_link_directives(linkage),
{
    let mut lines: Vec<&'static str> = Vec::new();
    if linkage == Linkage::SharedObject {
        lines.push("cargo:rustc-cdylib-link-arg=-fvisibility=default");
    }
    lines
}

} // verus!
