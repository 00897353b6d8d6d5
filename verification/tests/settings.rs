use lua_src::settings::{defines, flags, link_directives, linkage, Linkage, Switches};
use lua_src::{Lua51, Lua52, Lua53, Lua54, Platform};

const PLAIN: Switches = Switches {
    ucid: false,
    api_check: false,
    thread: false,
    linkage: Linkage::Static,
};

#[test]
fn linkage_is_static_unless_asked_otherwise() {
    assert_eq!(linkage(false, None), Some(Linkage::Static));
    assert_eq!(linkage(false, Some("windows")), Some(Linkage::Static));
    assert_eq!(linkage(false, Some("unix")), Some(Linkage::Static));
}

#[test]
fn dynamic_linkage_goes_by_the_target_family() {
    assert_eq!(linkage(true, Some("windows")), Some(Linkage::WindowsDll));
    assert_eq!(linkage(true, Some("unix")), Some(Linkage::SharedObject));
    assert_eq!(linkage(true, Some("wasm")), Some(Linkage::SharedObject));
    assert_eq!(linkage(true, Some("")), Some(Linkage::SharedObject));
    assert_eq!(linkage(true, Some("Windows")), Some(Linkage::SharedObject));
}

#[test]
fn dynamic_linkage_needs_the_target_family() {
    assert_eq!(linkage(true, None), None);
}

#[test]
fn plain_build_defines_the_platform_symbol_only() {
    for version in [Lua51, Lua52, Lua53] {
        assert_eq!(
            defines(version, Platform::Linux, PLAIN),
            vec![("LUA_USE_LINUX", None)]
        );
        assert_eq!(
            defines(version, Platform::Windows, PLAIN),
            vec![("LUA_USE_WINDOWS", None)]
        );
    }
}

#[test]
fn newest_release_defines_compatibility() {
    assert_eq!(
        defines(Lua54, Platform::Linux, PLAIN),
        vec![("LUA_USE_LINUX", None), ("LUA_COMPAT_5_3", None)]
    );
    assert_eq!(
        defines(Lua54, Platform::Ios, PLAIN),
        vec![("LUA_USE_IOS", None), ("LUA_COMPAT_5_3", None)]
    );
}

#[test]
fn ucid_counts_for_the_newest_release_only() {
    let switches = Switches { ucid: true, ..PLAIN };
    assert_eq!(
        defines(Lua54, Platform::MacOs, switches),
        vec![
            ("LUA_USE_MACOSX", None),
            ("LUA_COMPAT_5_3", None),
            ("LUA_UCID", None)
        ]
    );
    assert_eq!(
        defines(Lua53, Platform::MacOs, switches),
        vec![("LUA_USE_MACOSX", None)]
    );
}

#[test]
fn api_check_defines_its_symbol() {
    let switches = Switches { api_check: true, ..PLAIN };
    assert_eq!(
        defines(Lua51, Platform::Posix, switches),
        vec![("LUA_USE_POSIX", None), ("LUA_USE_APICHECK", None)]
    );
}

#[test]
fn thread_redirects_the_user_header() {
    let switches = Switches { thread: true, ..PLAIN };
    assert_eq!(
        defines(Lua52, Platform::Linux, switches),
        vec![
            ("LUA_USE_LINUX", None),
            ("LUA_USER_H", Some("\"../ezlua/ezlua.h\""))
        ]
    );
}

#[test]
fn windows_dll_exports_its_symbols() {
    let switches = Switches { linkage: Linkage::WindowsDll, ..PLAIN };
    assert_eq!(
        defines(Lua53, Platform::Windows, switches),
        vec![
            ("LUA_USE_WINDOWS", None),
            ("LUA_CORE", None),
            ("LUA_BUILD_AS_DLL", None)
        ]
    );
}

#[test]
fn shared_object_defines_nothing_more() {
    let switches = Switches { linkage: Linkage::SharedObject, ..PLAIN };
    assert_eq!(
        defines(Lua53, Platform::Linux, switches),
        vec![("LUA_USE_LINUX", None)]
    );
}

#[test]
fn all_switches_define_in_order() {
    let switches = Switches {
        ucid: true,
        api_check: true,
        thread: true,
        linkage: Linkage::WindowsDll,
    };
    assert_eq!(
        defines(Lua54, Platform::Emscripten, switches),
        vec![
            ("LUA_USE_POSIX", None),
            ("LUA_COMPAT_5_3", None),
            ("LUA_UCID", None),
            ("LUA_USE_APICHECK", None),
            ("LUA_USER_H", Some("\"../ezlua/ezlua.h\"")),
            ("LUA_CORE", None),
            ("LUA_BUILD_AS_DLL", None)
        ]
    );
}

#[test]
fn every_build_silences_warnings() {
    for platform in [
        Platform::Linux,
        Platform::MacOs,
        Platform::Ios,
        Platform::Posix,
        Platform::Windows,
    ] {
        assert_eq!(
            flags(platform, Linkage::Static),
            vec![("-w", false), ("-fno-common", true)]
        );
        assert_eq!(
            flags(platform, Linkage::WindowsDll),
            vec![("-w", false), ("-fno-common", true)]
        );
    }
}

#[test]
fn emscripten_enables_exceptions() {
    assert_eq!(
        flags(Platform::Emscripten, Linkage::Static),
        vec![("-fexceptions", false), ("-w", false), ("-fno-common", true)]
    );
}

#[test]
fn shared_object_makes_symbols_visible() {
    assert_eq!(
        flags(Platform::Linux, Linkage::SharedObject),
        vec![
            ("-fvisibility=default", false),
            ("-w", false),
            ("-fno-common", true)
        ]
    );
    assert_eq!(
        flags(Platform::Emscripten, Linkage::SharedObject),
        vec![
            ("-fexceptions", false),
            ("-fvisibility=default", false),
            ("-w", false),
            ("-fno-common", true)
        ]
    );
}

#[test]
fn only_a_shared_object_instructs_the_linker() {
    assert_eq!(
        link_directives(Linkage::SharedObject),
        vec!["cargo:rustc-cdylib-link-arg=-fvisibility=default"]
    );
    assert_eq!(link_directives(Linkage::Static), Vec::<&str>::new());
    assert_eq!(link_directives(Linkage::WindowsDll), Vec::<&str>::new());
}
