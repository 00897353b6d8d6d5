//! The source files that make up each release.

use crate::version::Version;
use vstd::prelude::*;

verus! {

/// The files that every release is built from, in the order in which they
/// are handed to the compiler.
pub open spec fn core_files() -> Seq<Seq<char>> {
    seq![
        "lapi.c"@,
        "lauxlib.c"@,
        "lbaselib.c"@,
        "lcode.c"@,
        "ldblib.c"@,
        "ldebug.c"@,
        "ldo.c"@,
        "ldump.c"@,
        "lfunc.c"@,
        "lgc.c"@,
        "linit.c"@,
        "liolib.c"@,
        "llex.c"@,
        "lmathlib.c"@,
        "lmem.c"@,
        "loadlib.c"@,
        "lobject.c"@,
        "lopcodes.c"@,
        "loslib.c"@,
        "lparser.c"@,
        "lstate.c"@,
        "lstring.c"@,
        "lstrlib.c"@,
        "ltable.c"@,
        "ltablib.c"@,
        "ltm.c"@,
        "lundump.c"@,
        "lvm.c"@,
        "lzio.c"@,
    ]
}

/// The files that only some releases have, in the order in which they are
/// handed to the compiler.
pub open spec fn optional_files(version: Version) -> Seq<Seq<char>> {
    let bit: Seq<Seq<char>> = if version.has_bit_library() {
        seq!["lbitlib.c"@]
    } else {
        seq![]
    };
    let coroutine: Seq<Seq<char>> = if version.has_coroutine_library() {
        seq!["lcorolib.c"@, "lctype.c"@]
    } else {
        seq![]
    };
    let utf8: Seq<Seq<char>> = if version.has_utf8_library() {
        seq!["lutf8lib.c"@]
    } else {
        seq![]
    };
    bit + coroutine + utf8
}

/// The files that a release is built from: the core files, then those that
/// only this release and some others have.
pub open spec fn manifest(version: Version) -> Seq<Seq<char>> {
    core_files() + optional_files(version)
}

/// The files that a release is built from, in the order in which they are
/// handed to the compiler.
pub fn source_files(version: Version) -> (files: Vec<&'static str>)
    ensures
        files.deep_view() == manifest(version),
{
    let mut files: Vec<&'static str> = vec![
        "lapi.c",
        "lauxlib.c",
        "lbaselib.c",
        "lcode.c",
        "ldblib.c",
        "ldebug.c",
        "ldo.c",
        "ldump.c",
        "lfunc.c",
        "lgc.c",
        "linit.c",
        "liolib.c",
        "llex.c",
        "lmathlib.c",
        "lmem.c",
        "loadlib.c",
        "lobject.c",
        "lopcodes.c",
        "loslib.c",
        "lparser.c",
        "lstate.c",
        "lstring.c",
        "lstrlib.c",
        "ltable.c",
        "ltablib.c",
        "ltm.c",
        "lundump.c",
        "lvm.c",
        "lzio.c",
    ];
    match version {
        Version::Lua51 => {},
        Version::Lua52 => {
            files.push("lbitlib.c");
            files.push("lcorolib.c");
            files.push("lctype.c");
        },
        Version::Lua53 => {
            files.push("lbitlib.c");
            files.push("lcorolib.c");
            files.push("lctype.c");
            files.push("lutf8lib.c");
        },
        Version::Lua54 => {
            files.push("lcorolib.c");
            files.push("lctype.c");
            files.push("lutf8lib.c");
        },
    }
    files
}

/// Two names differ in length or in one of the four characters after the
/// first, which is enough to tell any two file names of a manifest apart.
spec fn told_apart(a: Seq<char>, b: Seq<char>) -> bool {
    a.len() != b.len() || a[1] != b[1] || a[2] != b[2] || a[3] != b[3] || a[4] != b[4]
}

/// A release's manifest names no file twice, holds every core file and, of
/// the other files, exactly those that the release ships.
pub proof fn manifest_matches_table(version: Version)
    ensures
        manifest(version).no_duplicates(),
        forall|i: int| 0 <= i < core_files().len() ==> manifest(version).contains(core_files()[i]),
        manifest(version).contains("lbitlib.c"@) <==> version.has_bit_library(),
        manifest(version).contains("lcorolib.c"@) <==> version.has_coroutine_library(),
        manifest(version).contains("lctype.c"@) <==> version.has_coroutine_library(),
        manifest(version).contains("lutf8lib.c"@) <==> version.has_utf8_library(),
        manifest(version).len() == core_files().len() + optional_files(version).len(),
        optional_files(version).len() == (if version.has_bit_library() {
            1nat
        } else {
            0nat
        }) + (if version.has_coroutine_library() {
            2nat
        } else {
            0nat
        }) + (if version.has_utf8_library() {
            1nat
        } else {
            0nat
        }),
{
    reveal_strlit("lapi.c");
    reveal_strlit("lauxlib.c");
    reveal_strlit("lbaselib.c");
    reveal_strlit("lcode.c");
    reveal_strlit("ldblib.c");
    reveal_strlit("ldebug.c");
    reveal_strlit("ldo.c");
    reveal_strlit("ldump.c");
    reveal_strlit("lfunc.c");
    reveal_strlit("lgc.c");
    reveal_strlit("linit.c");
    reveal_strlit("liolib.c");
    reveal_strlit("llex.c");
    reveal_strlit("lmathlib.c");
    reveal_strlit("lmem.c");
    reveal_strlit("loadlib.c");
    reveal_strlit("lobject.c");
    reveal_strlit("lopcodes.c");
    reveal_strlit("loslib.c");
    reveal_strlit("lparser.c");
    reveal_strlit("lstate.c");
    reveal_strlit("lstring.c");
    reveal_strlit("lstrlib.c");
    reveal_strlit("ltable.c");
    reveal_strlit("ltablib.c");
    reveal_strlit("ltm.c");
    reveal_strlit("lundump.c");
    reveal_strlit("lvm.c");
    reveal_strlit("lzio.c");
    reveal_strlit("lbitlib.c");
    reveal_strlit("lcorolib.c");
    reveal_strlit("lctype.c");
    reveal_strlit("lutf8lib.c");
    let m = manifest(version);
    let core = core_files().len() as int;
    assert forall|i: int, j: int| 0 <= i < m.len() && 0 <= j < m.len() && i != j implies m[i]
        != m[j] by {
        assert(told_apart(m[i], m[j]));
    }
    assert forall|i: int| 0 <= i < core implies m.contains(core_files()[i]) by {
        assert(m[i] == core_files()[i]);
    }
    if version.has_bit_library() {
        assert(m[core] == "lbitlib.c"@);
    } else {
        assert forall|i: int| 0 <= i < m.len() implies m[i] != "lbitlib.c"@ by {
            assert(told_apart(m[i], "lbitlib.c"@));
        }
    }
    if version.has_coroutine_library() {
        let at = if version.has_bit_library() {
            core + 1
        } else {
            core
        };
        assert(m[at] == "lcorolib.c"@);
        assert(m[at + 1] == "lctype.c"@);
    } else {
        assert forall|i: int| 0 <= i < m.len() implies m[i] != "lcorolib.c"@ && m[i]
            != "lctype.c"@ by {
            assert(told_apart(m[i], "lcorolib.c"@));
            assert(told_apart(m[i], "lctype.c"@));
        }
    }
    if version.has_utf8_library() {
        assert(m[m.len() - 1] == "lutf8lib.c"@);
    } else {
        assert forall|i: int| 0 <= i < m.len() implies m[i] != "lutf8lib.c"@ by {
            assert(told_apart(m[i], "lutf8lib.c"@));
        }
    }
}

} // verus!
