//! Which platform code paths a target triple selects.

use crate::text::{contains, ends_with, str_contains, str_ends_with};
use crate::version::Version;
use vstd::prelude::*;

verus! {

/// The platform code paths that the interpreter can be compiled with.
#[derive(Debug, Clone, Copy, PartialEq, Eq, Structural)]
pub enum Platform {
    /// POSIX with the Linux extensions.
    Linux,
    MacOs,
    Ios,
    /// POSIX without extensions.
    Posix,
    Windows,
    /// POSIX, compiled as C++ from a patched copy of the sources.
    Emscripten,
}

impl Platform {
    /// The preprocessor symbol that switches this platform's code paths on.
    pub open spec fn spec_define(self) -> Seq<char> {
        match self {
            Platform::Linux => "LUA_USE_LINUX"@,
            Platform::MacOs => "LUA_USE_MACOSX"@,
            Platform::Ios => "LUA_USE_IOS"@,
            Platform::Posix => "LUA_USE_POSIX"@,
            Platform::Windows => "LUA_USE_WINDOWS"@,
            Platform::Emscripten => "LUA_USE_POSIX"@,
        }
    }

    /// The sources are compiled as C++, from a patched copy.
    pub open spec fn spec_is_cpp(self) -> bool {
        self == Platform::Emscripten
    }

    /// The preprocessor symbol that switches this platform's code paths on.
    pub fn define(self) -> (symbol: &'static str)
        ensures
            symbol@ == self.spec_define(),
    {
        match self {
            Platform::Linux => "LUA_USE_LINUX",
            Platform::MacOs => "LUA_USE_MACOSX",
            Platform::Ios => "LUA_USE_IOS",
            Platform::Posix => "LUA_USE_POSIX",
            Platform::Windows => "LUA_USE_WINDOWS",
            Platform::Emscripten => "LUA_USE_POSIX",
        }
    }

    /// Whether the sources are compiled as C++, from a patched copy.
    pub fn is_cpp(self) -> (cpp: bool)
        ensures
            cpp == self.spec_is_cpp(),
    {
        match self {
            Platform::Emscripten => true,
            _ => false,
        }
    }
}

/// The rules of the platform dispatch, in the order in which they are tried.
pub ghost enum Rule {
    Linux,
    Bsd,
    Darwin,
    Ios,
    Windows,
    Emscripten,
}

impl Rule {
    /// The place of the rule in the order of the dispatch.
    pub open spec fn rank(self) -> nat {
        match self {
            Rule::Linux => 0,
            Rule::Bsd => 1,
            Rule::Darwin => 2,
            Rule::Ios => 3,
            Rule::Windows => 4,
            Rule::Emscripten => 5,
        }
    }

    /// The rule matches the target triple.
    pub open spec fn matches(self, target: Seq<char>) -> bool {
        match self {
            Rule::Linux => contains(target, "linux"@),
            Rule::Bsd => ends_with(target, "bsd"@),
            Rule::Darwin => contains(target, "apple-darwin"@),
            Rule::Ios => contains(target, "apple-ios"@),
            Rule::Windows => contains(target, "windows"@),
            Rule::Emscripten => ends_with(target, "emscripten"@),
        }
    }

    /// The platform that the rule selects for a release. On Darwin the
    /// oldest release is built as for Linux; on iOS only the newest release
    /// has code paths of its own.
    pub open spec fn platform(self, version: Version) -> Platform {
        match self {
            Rule::Linux => Platform::Linux,
            Rule::Bsd => Platform::Linux,
            Rule::Darwin => if version == Version::Lua51 {
                Platform::Linux
            } else {
                Platform::MacOs
            },
            Rule::Ios => if version == Version::Lua54 {
                Platform::Ios
            } else {
                Platform::Posix
            },
            Rule::Windows => Platform::Windows,
            Rule::Emscripten => Platform::Emscripten,
        }
    }
}

/// The first rule, in the order of the dispatch, that matches the target
/// triple; `None` where none does.
pub open spec fn first_match(target: Seq<char>) -> Option<Rule> {
    if Rule::Linux.matches(target) {
        Some(Rule::Linux)
    } else if Rule::Bsd.matches(target) {
        Some(Rule::Bsd)
    } else if Rule::Darwin.matches(target) {
        Some(Rule::Darwin)
    } else if Rule::Ios.matches(target) {
        Some(Rule::Ios)
    } else if Rule::Windows.matches(target) {
        Some(Rule::Windows)
    } else if Rule::Emscripten.matches(target) {
        Some(Rule::Emscripten)
    } else {
        None
    }
}

/// Some rule of the dispatch matches the target triple.
pub open spec fn recognized(target: Seq<char>) -> bool {
    exists|rule: Rule| rule.matches(target)
}

/// The platform that a target triple selects for a release: that of the
/// first rule that matches, `None` where none does.
pub open spec fn spec_select_platform(target: Seq<char>, version: Version) -> Option<Platform> {
    match first_match(target) {
        Some(rule) => Some(rule.platform(version)),
        None => None,
    }
}

/// The platform that a target triple selects for a release, `None` for a
/// triple that no rule matches.
pub fn select_platform(target: &str, version: Version) -> (platform: Option<Platform>)
    ensures
        platform == spec_select_platform(target@, version),
{
    if str_contains(target, "linux") {
        Some(Platform::Linux)
    } else if str_ends_with(target, "bsd") {
        Some(Platform::Linux)
    } else if str_contains(target, "apple-darwin") {
        match version {
            Version::Lua51 => Some(Platform::Linux),
            _ => Some(Platform::MacOs),
        }
    } else if str_contains(target, "apple-ios") {
        match version {
            Version::Lua54 => Some(Platform::Ios),
            _ => Some(Platform::Posix),
        }
    } else if str_contains(target, "windows") {
        Some(Platform::Windows)
    } else if str_ends_with(target, "emscripten") {
        Some(Platform::Emscripten)
    } else {
        None
    }
}

/// A rule decides the dispatch exactly where it matches the target triple
/// and no rule before it does; its platform is then selected, for every
/// release.
pub proof fn first_matching_rule_decides(target: Seq<char>, version: Version, rule: Rule)
    ensures
        first_match(target) == Some(rule) <==> rule.matches(target) && forall|earlier: Rule|
            earlier.rank() < rule.rank() ==> !earlier.matches(target),
        first_match(target) == Some(rule) ==> spec_select_platform(target, version) == Some(
            rule.platform(version),
        ),
{
}

/// The preprocessor symbol that each rule switches on, by way of its
/// platform; the rule for Emscripten alone has the sources compiled as C++.
pub proof fn rules_select_their_symbols(version: Version, rule: Rule)
    ensures
        rule.platform(version).spec_define() == match rule {
            Rule::Linux => "LUA_USE_LINUX"@,
            Rule::Bsd => "LUA_USE_LINUX"@,
            Rule::Darwin => if version == Version::Lua51 {
                "LUA_USE_LINUX"@
            } else {
                "LUA_USE_MACOSX"@
            },
            Rule::Ios => if version == Version::Lua54 {
                "LUA_USE_IOS"@
            } else {
                "LUA_USE_POSIX"@
            },
            Rule::Windows => "LUA_USE_WINDOWS"@,
            Rule::Emscripten => "LUA_USE_POSIX"@,
        },
        rule.platform(version).spec_is_cpp() <==> rule == Rule::Emscripten,
{
}

/// A target triple selects a platform exactly where some rule matches it,
/// whatever the release.
pub proof fn only_recognized_targets_select(target: Seq<char>, version: Version)
    ensures
        spec_select_platform(target, version) is Some <==> recognized(target),
{
}

/// The dispatch depends on the characters of the triple and on the release
/// alone: the same triple selects the same platform, whenever it is asked.
pub proof fn dispatch_is_deterministic(first: Seq<char>, second: Seq<char>, version: Version)
    requires
        first =~= second,
    ensures
        spec_select_platform(first, version) == spec_select_platform(second, version),
{
}

} // verus!
