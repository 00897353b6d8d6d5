use lua_src::settings::Linkage;
use lua_src::steps::steps;
use lua_src::{Lua51, Lua54, Platform, Step};

fn recreate(dir: &str) -> Step {
    Step::Recreate(dir.to_string())
}

fn copy(from: &str, to: &str) -> Step {
    Step::Copy {
        from: from.to_string(),
        to: to.to_string(),
    }
}

#[test]
fn a_plain_build_takes_seven_steps() {
    let list = steps("lib", "inc", "src", "tmp", Lua51, Platform::Linux, Linkage::Static);
    assert_eq!(
        list,
        vec![
            recreate("lib"),
            recreate("inc"),
            Step::Compile("lua5.1"),
            copy("src/lauxlib.h", "inc/lauxlib.h"),
            copy("src/lua.h", "inc/lua.h"),
            copy("src/luaconf.h", "inc/luaconf.h"),
            copy("src/lualib.h", "inc/lualib.h"),
        ]
    );
}

#[test]
fn a_cpp_build_copies_the_sources_first() {
    let list = steps(
        "lib",
        "inc",
        "src",
        "tmp",
        Lua54,
        Platform::Emscripten,
        Linkage::SharedObject,
    );
    assert_eq!(
        list,
        vec![
            recreate("lib"),
            recreate("inc"),
            recreate("tmp"),
            Step::CopyPatched {
                from: "src".to_string(),
                to: "tmp".to_string(),
            },
            Step::Emit("cargo:rustc-cdylib-link-arg=-fvisibility=default"),
            Step::Compile("lua5.4"),
            copy("tmp/lauxlib.h", "inc/lauxlib.h"),
            copy("tmp/lua.h", "inc/lua.h"),
            copy("tmp/luaconf.h", "inc/luaconf.h"),
            copy("tmp/lualib.h", "inc/lualib.h"),
        ]
    );
}

#[test]
fn every_build_starts_by_making_its_directories_anew() {
    for platform in [
        Platform::Linux,
        Platform::MacOs,
        Platform::Ios,
        Platform::Posix,
        Platform::Windows,
        Platform::Emscripten,
    ] {
        for linkage in [Linkage::Static, Linkage::WindowsDll, Linkage::SharedObject] {
            let list = steps("lib", "inc", "src", "tmp", Lua54, platform, linkage);
            assert_eq!(list[0], recreate("lib"));
            assert_eq!(list[1], recreate("inc"));
            let compiles = list
                .iter()
                .filter(|step| matches!(step, Step::Compile(_)))
                .count();
            assert_eq!(compiles, 1);
            let copies = list
                .iter()
                .filter(|step| matches!(step, Step::Copy { .. }))
                .count();
            assert_eq!(copies, 4);
            assert_eq!(list[list.len() - 5], Step::Compile("lua5.4"));
        }
    }
}
