use lua_src::headers::{public_headers, scratch_content};

#[test]
fn four_headers_are_public() {
    assert_eq!(
        public_headers(),
        vec!["lauxlib.h", "lua.h", "luaconf.h", "lualib.h"]
    );
}

#[test]
fn wrapped_headers_get_a_linkage_block() {
    for name in ["lauxlib.h", "lua.h", "lualib.h"] {
        let copy = scratch_content(name, b"#define X 1\n".to_vec());
        assert_eq!(copy, b"extern \"C\" {\n#define X 1\n\n}".to_vec());
    }
}

#[test]
fn wrapped_headers_begin_and_end_with_the_wrapper() {
    let content = b"int lua_gettop(lua_State *L);".to_vec();
    let copy = scratch_content("lua.h", content.clone());
    assert!(copy.starts_with(b"extern \"C\" {\n"));
    assert!(copy.ends_with(b"\n}"));
    assert_eq!(copy.len(), 13 + content.len() + 2);
    assert_eq!(&copy[13..copy.len() - 2], &content[..]);
}

#[test]
fn an_empty_wrapped_header_holds_the_wrapper_alone() {
    assert_eq!(
        scratch_content("lualib.h", Vec::new()),
        b"extern \"C\" {\n\n}".to_vec()
    );
}

#[test]
fn other_files_are_copied_as_they_are() {
    for name in [
        "luaconf.h",
        "lapi.c",
        "lapi.h",
        "lua.hpp",
        "lua.c",
        "Makefile",
        "",
        "LUA.H",
        "xlua.h",
        "lua.h ",
    ] {
        let content = b"/* anything \x00\xff */".to_vec();
        assert_eq!(scratch_content(name, content.clone()), content);
    }
}

#[test]
fn other_files_may_be_empty_or_binary() {
    assert_eq!(scratch_content("lvm.c", Vec::new()), Vec::<u8>::new());
    let bytes: Vec<u8> = (0..=255).collect();
    assert_eq!(scratch_content("lundump.c", bytes.clone()), bytes);
}
