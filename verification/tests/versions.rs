use lua_src::sources::source_files;
use lua_src::{Lua51, Lua52, Lua53, Lua54, Version};

const CORE: [&str; 29] = [
    "lapi.c",
    "lauxlib.c",
    "lbaselib.c",
    "lcode.c",
    "ldblib.c",
    "ldebug.c",
    "ldo.c",
    "ldump.c",
    "lfunc.c",
    "lgc.c",
    "linit.c",
    "liolib.c",
    "llex.c",
    "lmathlib.c",
    "lmem.c",
    "loadlib.c",
    "lobject.c",
    "lopcodes.c",
    "loslib.c",
    "lparser.c",
    "lstate.c",
    "lstring.c",
    "lstrlib.c",
    "ltable.c",
    "ltablib.c",
    "ltm.c",
    "lundump.c",
    "lvm.c",
    "lzio.c",
];

fn core_and(extra: &[&'static str]) -> Vec<&'static str> {
    let mut files = CORE.to_vec();
    files.extend_from_slice(extra);
    files
}

#[test]
fn lib_names_follow_the_release() {
    assert_eq!(Lua51.lib_name(), "lua5.1");
    assert_eq!(Lua52.lib_name(), "lua5.2");
    assert_eq!(Lua53.lib_name(), "lua5.3");
    assert_eq!(Lua54.lib_name(), "lua5.4");
}

#[test]
fn source_trees_follow_the_release() {
    assert_eq!(Lua51.source_dir_name(), "lua-5.1.5");
    assert_eq!(Lua52.source_dir_name(), "lua-5.2.4");
    assert_eq!(Lua53.source_dir_name(), "lua-5.3.6");
    assert_eq!(Lua54.source_dir_name(), "lua-5.4.7");
}

#[test]
fn releases_are_told_apart() {
    assert_eq!(Version::Lua51, Lua51);
    assert_ne!(Version::Lua51, Version::Lua52);
    assert_ne!(Version::Lua53, Version::Lua54);
}

#[test]
fn oldest_release_has_core_files_only() {
    assert_eq!(source_files(Lua51), core_and(&[]));
}

#[test]
fn second_release_adds_bit_coroutine_and_ctype() {
    assert_eq!(
        source_files(Lua52),
        core_and(&["lbitlib.c", "lcorolib.c", "lctype.c"])
    );
}

#[test]
fn third_release_adds_utf8() {
    assert_eq!(
        source_files(Lua53),
        core_and(&["lbitlib.c", "lcorolib.c", "lctype.c", "lutf8lib.c"])
    );
}

#[test]
fn newest_release_drops_the_bit_library() {
    assert_eq!(
        source_files(Lua54),
        core_and(&["lcorolib.c", "lctype.c", "lutf8lib.c"])
    );
}

#[test]
fn no_release_names_a_file_twice() {
    for version in [Lua51, Lua52, Lua53, Lua54] {
        let files = source_files(version);
        for (i, file) in files.iter().enumerate() {
            assert!(!files[..i].contains(file), "{} is named twice", file);
        }
    }
}

#[test]
fn every_release_has_every_core_file() {
    for version in [Lua51, Lua52, Lua53, Lua54] {
        let files = source_files(version);
        for file in CORE {
            assert!(files.contains(&file), "{} is missing", file);
        }
    }
}

#[test]
fn manifest_lengths_match_the_table() {
    assert_eq!(source_files(Lua51).len(), 29);
    assert_eq!(source_files(Lua52).len(), 32);
    assert_eq!(source_files(Lua53).len(), 33);
    assert_eq!(source_files(Lua54).len(), 32);
}
