use lua_src::compiler::configure;
use lua_src::settings::{Linkage, Switches};
use lua_src::sources::source_files;
use lua_src::{Lua51, Lua53, Lua54, Platform};

const PLAIN: Switches = Switches {
    ucid: false,
    api_check: false,
    thread: false,
    linkage: Linkage::Static,
};

/// The value of a field in the debug rendering of a configuration: what
/// stands between its name and the name of the field after it.
fn field(rendering: &str, name: &str, next: &str) -> String {
    let start = format!(" {}: ", name);
    let end = format!(", {}: ", next);
    let from = rendering.find(&start).expect("the field is rendered") + start.len();
    let len = rendering[from..].find(&end).expect("so is the next");
    rendering[from..from + len].to_string()
}

fn files_of(compiler: &cc::Build) -> Vec<String> {
    compiler
        .get_files()
        .map(|path| path.to_str().unwrap().to_string())
        .collect()
}

#[test]
fn configuration_holds_the_triples() {
    let compiler = configure(
        "x86_64-unknown-linux-gnu",
        "aarch64-apple-darwin",
        Lua54,
        Platform::Linux,
        PLAIN,
        "/src/lua-5.4.7",
        "/out/lib",
    );
    let rendering = format!("{:?}", compiler);
    assert_eq!(
        field(&rendering, "target", "host"),
        "Some(\"x86_64-unknown-linux-gnu\")"
    );
    assert_eq!(
        field(&rendering, "host", "out_dir"),
        "Some(\"aarch64-apple-darwin\")"
    );
}

#[test]
fn configuration_holds_the_fixed_settings() {
    let compiler = configure("t", "h", Lua51, Platform::Linux, PLAIN, "/src", "/out/lib");
    let rendering = format!("{:?}", compiler);
    assert_eq!(field(&rendering, "opt_level", "debug"), "Some(\"2\")");
    assert_eq!(
        field(&rendering, "warnings_into_errors", "extra_warnings"),
        "false, warnings: Some(false)"
    );
    assert_eq!(
        field(&rendering, "extra_warnings", "emit_rerun_if_env_changed"),
        "Some(false)"
    );
    assert_eq!(field(&rendering, "metadata", "warnings"), "false");
    assert_eq!(field(&rendering, "out_dir", "opt_level"), "Some(\"/out/lib\")");
    assert_eq!(
        field(&rendering, "include_directories", "definitions"),
        "[\"/src\"]"
    );
}

#[test]
fn configuration_holds_the_symbols_in_order() {
    let switches = Switches {
        ucid: true,
        api_check: true,
        thread: true,
        linkage: Linkage::WindowsDll,
    };
    let compiler = configure("t", "h", Lua54, Platform::Windows, switches, "/src", "/out/lib");
    let rendering = format!("{:?}", compiler);
    assert_eq!(
        field(&rendering, "definitions", "objects"),
        "[(\"LUA_USE_WINDOWS\", None), (\"LUA_COMPAT_5_3\", None), (\"LUA_UCID\", None), \
         (\"LUA_USE_APICHECK\", None), (\"LUA_USER_H\", Some(\"\\\"../ezlua/ezlua.h\\\"\")), \
         (\"LUA_CORE\", None), (\"LUA_BUILD_AS_DLL\", None)]"
    );
}

#[test]
fn plain_configuration_is_for_a_static_c_library() {
    let compiler = configure("t", "h", Lua53, Platform::MacOs, PLAIN, "/src", "/out/lib");
    let rendering = format!("{:?}", compiler);
    assert_eq!(
        field(&rendering, "definitions", "objects"),
        "[(\"LUA_USE_MACOSX\", None)]"
    );
    assert_eq!(
        field(&rendering, "flags", "ar_flags"),
        "[Always(\"-w\"), IfSupported(\"-fno-common\")]"
    );
    assert_eq!(field(&rendering, "cpp", "cpp_link_stdlib"), "false");
    assert_eq!(field(&rendering, "pic", "use_plt"), "None");
    assert_eq!(field(&rendering, "shared_flag", "static_flag"), "None");
}

#[test]
fn emscripten_configuration_compiles_cpp_with_exceptions() {
    let compiler = configure(
        "wasm32-unknown-emscripten",
        "h",
        Lua54,
        Platform::Emscripten,
        PLAIN,
        "/out/cpp_source",
        "/out/lib",
    );
    let rendering = format!("{:?}", compiler);
    assert_eq!(field(&rendering, "cpp", "cpp_link_stdlib"), "true");
    assert_eq!(
        field(&rendering, "flags", "ar_flags"),
        "[Always(\"-fexceptions\"), Always(\"-w\"), IfSupported(\"-fno-common\")]"
    );
    assert_eq!(
        field(&rendering, "definitions", "objects"),
        "[(\"LUA_USE_POSIX\", None), (\"LUA_COMPAT_5_3\", None)]"
    );
    assert_eq!(
        field(&rendering, "include_directories", "definitions"),
        "[\"/out/cpp_source\"]"
    );
}

#[test]
fn shared_object_configuration_is_position_independent() {
    let switches = Switches { linkage: Linkage::SharedObject, ..PLAIN };
    let compiler = configure("t", "h", Lua53, Platform::Linux, switches, "/src", "/out/lib");
    let rendering = format!("{:?}", compiler);
    assert_eq!(field(&rendering, "pic", "use_plt"), "Some(true)");
    assert_eq!(field(&rendering, "shared_flag", "static_flag"), "Some(true)");
    assert_eq!(
        field(&rendering, "flags", "ar_flags"),
        "[Always(\"-fvisibility=default\"), Always(\"-w\"), IfSupported(\"-fno-common\")]"
    );
}

#[test]
fn windows_dll_configuration_leaves_the_code_model_alone() {
    let switches = Switches { linkage: Linkage::WindowsDll, ..PLAIN };
    let compiler = configure("t", "h", Lua53, Platform::Windows, switches, "/src", "/out/lib");
    let rendering = format!("{:?}", compiler);
    assert_eq!(field(&rendering, "pic", "use_plt"), "None");
    assert_eq!(field(&rendering, "shared_flag", "static_flag"), "None");
}

#[test]
fn configuration_holds_the_manifest_under_the_source_directory() {
    for version in [Lua51, Lua53, Lua54] {
        let compiler = configure("t", "h", version, Platform::Linux, PLAIN, "/src/tree", "/out");
        let expected: Vec<String> = source_files(version)
            .iter()
            .map(|name| format!("/src/tree/{}", name))
            .collect();
        assert_eq!(files_of(&compiler), expected);
    }
}

#[test]
fn configuration_of_the_oldest_release_ends_with_the_last_core_file() {
    let compiler = configure("t", "h", Lua51, Platform::Linux, PLAIN, "src", "out");
    let files = files_of(&compiler);
    assert_eq!(files.len(), 29);
    assert_eq!(files[0], "src/lapi.c");
    assert_eq!(files[28], "src/lzio.c");
}
